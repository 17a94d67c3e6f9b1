//! Link-header parsing and page accumulation.

use canvas_ladok::canvas::Submission;
use canvas_ladok::pagination::{collect_pages, get_next_url};
use canvas_ladok::types::{
    SokresultatStudieresultatResultat, Student, Studieresultat,
    StudieresultatForRapporteringSokVarden,
};

#[test]
fn test_get_next_url() {
    assert_eq!(
        get_next_url("<https://kth.test.instructure.com/api/v1/courses/7798/students/submissions?student_ids%5B%5D=all&page=first&per_page=100>; rel=\"current\",<https://kth.test.instructure.com/api/v1/courses/7798/students/submissions?student_ids%5B%5D=all&page=bookmark:WzY1OTU4MzZd&per_page=100>; rel=\"next\",<https://kth.test.instructure.com/api/v1/courses/7798/students/submissions?student_ids%5B%5D=all&page=first&per_page=100>; rel=\"first\""),
        Some("https://kth.test.instructure.com/api/v1/courses/7798/students/submissions?student_ids%5B%5D=all&page=bookmark:WzY1OTU4MzZd&per_page=100".to_string()),
    )
}

#[test]
fn test_get_next_url_0() {
    assert_eq!(
        get_next_url("<https://kth.test.instructure.com/api/v1/courses/7798/students/submissions?student_ids%5B%5D=all&page=first&per_page=100>; rel=\"current\",<https://kth.test.instructure.com/api/v1/courses/7798/students/submissions?student_ids%5B%5D=all&page=first&per_page=100>; rel=\"first\"",),
        None,
    )
}

#[test]
fn next_url_empty_header() {
    assert_eq!(get_next_url(""), None);
}

#[test]
fn next_url_single_next_entry() {
    assert_eq!(
        get_next_url("<http://x/a?page=2>; rel=\"next\""),
        Some("http://x/a?page=2".to_string())
    );
}

#[test]
fn splitting_is_by_comma_alone() {
    // Entries are cut at every comma, so a next-URL that itself holds
    // a comma is not recovered.
    assert_eq!(get_next_url("<http://x/a,b>; rel=\"next\""), None);
}

#[test]
fn next_url_takes_first_next_entry() {
    assert_eq!(
        get_next_url("<http://x/one>; rel=\"next\",<http://x/two>; rel=\"next\""),
        Some("http://x/one".to_string())
    );
}

fn sub(aid: i32) -> Submission {
    Submission {
        assignment_id: Some(aid),
        grade: None,
        user: None,
        graded_at: None,
        grader_id: None,
    }
}

#[test]
fn collect_pages_keeps_count_and_order() {
    let pages = vec![vec![sub(1), sub(2)], vec![], vec![sub(3)], vec![sub(4), sub(5)]];
    let all = collect_pages(pages);
    assert_eq!(all.len(), 5);
    let ids: Vec<i32> = all.iter().map(|s| s.assignment_id.unwrap()).collect();
    assert_eq!(ids, vec![1, 2, 3, 4, 5]);
}

fn result_page(uids: &[&str], total: usize) -> SokresultatStudieresultatResultat {
    SokresultatStudieresultatResultat {
        Resultat: uids
            .iter()
            .map(|u| Studieresultat {
                LarosateID: None,
                SenastSparad: None,
                SenastAndradAv: None,
                Uid: None,
                AktuellKursinstans: None,
                AktuelltKurstillfalle: None,
                KursUID: None,
                Rapporteringskontext: None,
                ResultatPaUtbildningar: vec![],
                SenastRegistrerad: None,
                Student: Some(Student { Uid: u.to_string() }),
            })
            .collect(),
        TotaltAntalPoster: total,
    }
}

#[test]
fn body_count_pagination_drains_to_total() {
    let mut acc = result_page(&["s1", "s2"], 5);
    let mut request = StudieresultatForRapporteringSokVarden::first_page("round-1", "moment-1");
    assert_eq!(request.Page, 1);
    let more = vec![result_page(&["s3", "s4"], 5), result_page(&["s5"], 5)];
    let mut i = 0;
    while !acc.is_complete() {
        request.next_page();
        acc.merge_page(more[i].clone());
        i += 1;
    }
    assert_eq!(request.Page, 3);
    assert_eq!(acc.Resultat.len(), 5);
    assert_eq!(acc.TotaltAntalPoster, 5);
    let uids: Vec<String> = acc
        .Resultat
        .iter()
        .map(|r| r.Student.as_ref().unwrap().Uid.clone())
        .collect();
    assert_eq!(uids, vec!["s1", "s2", "s3", "s4", "s5"]);
}

#[test]
fn search_request_holds_ordering_fixed() {
    let mut request = StudieresultatForRapporteringSokVarden::first_page("round-1", "moment-1");
    let order = request.OrderBy.clone();
    assert_eq!(order, vec!["EFTERNAMN_ASC", "FORNAMN_ASC", "PERSONNUMMER_ASC"]);
    assert_eq!(request.Filtrering, vec!["OBEHANDLADE", "UTKAST"]);
    assert_eq!(request.KurstillfallenUID, vec!["round-1"]);
    assert_eq!(request.UtbildningsinstansUID.as_deref(), Some("moment-1"));
    assert_eq!(request.Limit, 100);
    request.next_page();
    request.next_page();
    assert_eq!(request.Page, 3);
    assert_eq!(request.OrderBy, order);
}
