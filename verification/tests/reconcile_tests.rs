//! Classification of submissions against existing draft results, and
//! the errors that isolate one student from the rest of the run.

use canvas_ladok::cache::GradeScaleCache;
use canvas_ladok::canvas::{Submission, User};
use canvas_ladok::dates::{Date, OffsetTimestamp, Timestamp};
use canvas_ladok::errors::StudentError;
use canvas_ladok::reconcile::{prepare_ladok_change, ChangeToLadok};
use canvas_ladok::types::{
    Betygsgrad, BetygsgradID, Betygskala, BetygsskalaID, Rapporteringskontext, Resultat,
    ResultatPaUtbildning, SokresultatStudieresultatResultat, Student, Studieresultat,
};

// 2024-01-10T12:00:00Z and 2024-01-15T12:00:00Z.
const JAN_10: i64 = 1704888000;
const JAN_15: i64 = 1705320000;

fn scale_abf() -> Betygskala {
    Betygskala {
        Betygsgrad: vec![
            Betygsgrad { GiltigSomSlutbetyg: true, ID: BetygsgradID(1), Kod: "A".to_string() },
            Betygsgrad { GiltigSomSlutbetyg: true, ID: BetygsgradID(2), Kod: "B".to_string() },
            Betygsgrad { GiltigSomSlutbetyg: true, ID: BetygsgradID(3), Kod: "F".to_string() },
        ],
        ID: BetygsskalaID(9),
        Kod: "ABF".to_string(),
    }
}

fn cache() -> GradeScaleCache {
    let mut c = GradeScaleCache::new();
    c.insert_scale(BetygsskalaID(9), scale_abf());
    c
}

fn draft(moment: &str, grade_id: u32, exam: Date) -> Resultat {
    Resultat {
        Uid: Some("draft-1".to_string()),
        AktivitetstillfalleUID: None,
        Betygsgrad: Some(BetygsgradID(grade_id)),
        BetygsskalaID: Some(BetygsskalaID(9)),
        Examinationsdatum: Some(exam),
        SenasteResultatandring: Some(Timestamp { secs: 1700000000, nanos: 0 }),
        StudieresultatUID: Some("res-1".to_string()),
        UtbildningsinstansUID: Some(moment.to_string()),
    }
}

fn container(uid: &str, arbetsunderlag: Option<Resultat>) -> Studieresultat {
    Studieresultat {
        LarosateID: None,
        SenastSparad: None,
        SenastAndradAv: None,
        Uid: Some("res-1".to_string()),
        AktuellKursinstans: None,
        AktuelltKurstillfalle: None,
        KursUID: None,
        Rapporteringskontext: Some(Rapporteringskontext {
            Anonymiseringskod: None,
            BetygsskalaID: Some(BetygsskalaID(9)),
            KravPaHanvisningTillBeslutshandling: false,
            KravPaProjekttitel: false,
            UtbildningUID: "edu-1".to_string(),
            UtbildningsinstansUID: "moment-1".to_string(),
        }),
        ResultatPaUtbildningar: vec![ResultatPaUtbildning {
            Arbetsunderlag: arbetsunderlag,
            HarTillgodoraknande: None,
            HeltTillgodoraknad: None,
            KanExkluderas: None,
            SenastAttesteradeResultat: None,
            UtbildningUID: None,
        }],
        SenastRegistrerad: None,
        Student: Some(Student { Uid: uid.to_string() }),
    }
}

fn snapshot(entries: Vec<Studieresultat>) -> SokresultatStudieresultatResultat {
    let n = entries.len();
    SokresultatStudieresultatResultat { Resultat: entries, TotaltAntalPoster: n }
}

fn submission(grade: Option<&str>, graded_at: Option<i64>) -> Submission {
    Submission {
        assignment_id: Some(77),
        grade: grade.map(|g| g.to_string()),
        user: Some(User {
            id: 501,
            name: Some("Student One".to_string()),
            integration_id: Some("s1".to_string()),
        }),
        graded_at: graded_at.map(|secs| OffsetTimestamp { secs, offset_secs: 0 }),
        grader_id: Some(9000),
    }
}

fn moment() -> String {
    "moment-1".to_string()
}

#[test]
fn same_grade_and_date_is_no_change() {
    let existing = draft("moment-1", 1, Date { year: 2024, month: 1, day: 10 });
    let set = snapshot(vec![container("s1", Some(existing))]);
    let r = prepare_ladok_change(&cache(), "s1", &set, &moment(), &submission(Some("A"), Some(JAN_10)));
    assert_eq!(r, Ok(ChangeToLadok::NoChange("A".to_string())));
}

#[test]
fn different_grade_same_date_is_update() {
    let existing = draft("moment-1", 1, Date { year: 2024, month: 1, day: 10 });
    let set = snapshot(vec![container("s1", Some(existing))]);
    let r = prepare_ladok_change(&cache(), "s1", &set, &moment(), &submission(Some("B"), Some(JAN_10)));
    match r {
        Ok(ChangeToLadok::Update(u, kod)) => {
            assert_eq!(kod, "B");
            assert_eq!(u.Betygsgrad, Some(BetygsgradID(2)));
            assert_eq!(u.Examinationsdatum, Some(Date { year: 2024, month: 1, day: 10 }));
            assert_eq!(u.BetygsskalaID, BetygsskalaID(9));
            assert_eq!(u.ResultatUID.as_deref(), Some("draft-1"));
            // The concurrency token rides through unchanged.
            assert_eq!(u.SenasteResultatandring, Some(Timestamp { secs: 1700000000, nanos: 0 }));
        }
        other => panic!("expected update, got {:?}", other),
    }
}

#[test]
fn same_grade_later_date_is_update() {
    let existing = draft("moment-1", 1, Date { year: 2024, month: 1, day: 10 });
    let set = snapshot(vec![container("s1", Some(existing))]);
    let r = prepare_ladok_change(&cache(), "s1", &set, &moment(), &submission(Some("A"), Some(JAN_15)));
    match r {
        Ok(ChangeToLadok::Update(u, _)) => {
            assert_eq!(u.Betygsgrad, Some(BetygsgradID(1)));
            assert_eq!(u.Examinationsdatum, Some(Date { year: 2024, month: 1, day: 15 }));
        }
        other => panic!("expected update, got {:?}", other),
    }
}

#[test]
fn missing_draft_is_create() {
    let set = snapshot(vec![container("s1", None)]);
    let r = prepare_ladok_change(&cache(), "s1", &set, &moment(), &submission(Some("A"), Some(JAN_15)));
    match r {
        Ok(ChangeToLadok::Create(c, kod)) => {
            assert_eq!(kod, "A");
            assert_eq!(c.Betygsgrad, Some(BetygsgradID(1)));
            assert_eq!(c.Examinationsdatum, Some(Date { year: 2024, month: 1, day: 15 }));
            assert_eq!(c.BetygsskalaID, BetygsskalaID(9));
            assert_eq!(c.StudieresultatUID.as_deref(), Some("res-1"));
            assert_eq!(c.UtbildningsinstansUID.as_deref(), Some("moment-1"));
        }
        other => panic!("expected create, got {:?}", other),
    }
}

#[test]
fn ungraded_submission_is_skipped() {
    let set = snapshot(vec![container("s1", None)]);
    let r = prepare_ladok_change(&cache(), "s1", &set, &moment(), &submission(None, Some(JAN_10)));
    assert_eq!(r, Ok(ChangeToLadok::NoGrade));
}

#[test]
fn lower_case_grade_classifies_like_upper_case() {
    let existing = draft("moment-1", 1, Date { year: 2024, month: 1, day: 10 });
    let set = snapshot(vec![container("s1", Some(existing))]);
    let r = prepare_ladok_change(&cache(), "s1", &set, &moment(), &submission(Some("a"), Some(JAN_10)));
    assert_eq!(r, Ok(ChangeToLadok::NoChange("A".to_string())));
}

#[test]
fn absent_student_is_an_error() {
    let set = snapshot(vec![container("someone-else", None)]);
    let r = prepare_ladok_change(&cache(), "s1", &set, &moment(), &submission(Some("A"), Some(JAN_10)));
    assert_eq!(r, Err(StudentError::StudentNotFound));
}

#[test]
fn missing_scale_reference_is_an_error() {
    let mut one = container("s1", None);
    one.Rapporteringskontext = None;
    let set = snapshot(vec![one]);
    let r = prepare_ladok_change(&cache(), "s1", &set, &moment(), &submission(Some("A"), Some(JAN_10)));
    assert_eq!(r, Err(StudentError::MissingGradeScale));
}

#[test]
fn unfetched_scale_is_an_error() {
    let set = snapshot(vec![container("s1", None)]);
    let empty = GradeScaleCache::new();
    let r = prepare_ladok_change(&empty, "s1", &set, &moment(), &submission(Some("A"), Some(JAN_10)));
    assert_eq!(r, Err(StudentError::ScaleNotLoaded(BetygsskalaID(9))));
}

#[test]
fn unknown_grade_is_an_error() {
    let set = snapshot(vec![container("s1", None)]);
    let r = prepare_ladok_change(&cache(), "s1", &set, &moment(), &submission(Some("Z"), Some(JAN_10)));
    assert_eq!(
        r,
        Err(StudentError::UnknownGrade { grade: "Z".to_string(), scale: "ABF".to_string() })
    );
}

#[test]
fn missing_graded_at_is_an_error() {
    let set = snapshot(vec![container("s1", None)]);
    let r = prepare_ladok_change(&cache(), "s1", &set, &moment(), &submission(Some("A"), None));
    assert_eq!(r, Err(StudentError::MissingGradedAt));
}

#[test]
fn exam_date_is_the_local_date_of_the_grading_instant() {
    // 2024-01-10T23:30:00Z, one hour east of UTC: locally it is
    // already 2024-01-11.
    let set = snapshot(vec![container("s1", None)]);
    let mut sub = submission(Some("A"), None);
    sub.graded_at = Some(OffsetTimestamp { secs: 1704929400, offset_secs: 3600 });
    let r = prepare_ladok_change(&cache(), "s1", &set, &moment(), &sub);
    match r {
        Ok(ChangeToLadok::Create(c, _)) => {
            assert_eq!(c.Examinationsdatum, Some(Date { year: 2024, month: 1, day: 11 }));
        }
        other => panic!("expected create, got {:?}", other),
    }
}

#[test]
fn exam_date_shifts_back_for_western_zones() {
    // 2024-01-10T00:30:00Z, one hour west of UTC: locally it is still
    // 2024-01-09.
    let set = snapshot(vec![container("s1", None)]);
    let mut sub = submission(Some("A"), None);
    sub.graded_at = Some(OffsetTimestamp { secs: 1704846600, offset_secs: -3600 });
    let r = prepare_ladok_change(&cache(), "s1", &set, &moment(), &sub);
    match r {
        Ok(ChangeToLadok::Create(c, _)) => {
            assert_eq!(c.Examinationsdatum, Some(Date { year: 2024, month: 1, day: 9 }));
        }
        other => panic!("expected create, got {:?}", other),
    }
}

#[test]
fn reconciliation_is_idempotent_once_applied() {
    // First pass: no draft, so the engine asks for a create.
    let set1 = snapshot(vec![container("s1", None)]);
    let sub = submission(Some("A"), Some(JAN_15));
    let c = cache();
    let first = prepare_ladok_change(&c, "s1", &set1, &moment(), &sub);
    let payload = match first {
        Ok(ChangeToLadok::Create(p, _)) => p,
        other => panic!("expected create, got {:?}", other),
    };
    // The registry applies the create: the snapshot now holds a draft
    // with exactly the submitted grade and date.
    let applied = Resultat {
        Uid: Some("fresh-record".to_string()),
        AktivitetstillfalleUID: None,
        Betygsgrad: payload.Betygsgrad,
        BetygsskalaID: Some(payload.BetygsskalaID),
        Examinationsdatum: payload.Examinationsdatum,
        SenasteResultatandring: Some(Timestamp { secs: 1705400000, nanos: 0 }),
        StudieresultatUID: payload.StudieresultatUID.clone(),
        UtbildningsinstansUID: payload.UtbildningsinstansUID.clone(),
    };
    let set2 = snapshot(vec![container("s1", Some(applied))]);
    // Second pass over the unchanged submission: no change.
    let second = prepare_ladok_change(&c, "s1", &set2, &moment(), &sub);
    assert_eq!(second, Ok(ChangeToLadok::NoChange("A".to_string())));
}
