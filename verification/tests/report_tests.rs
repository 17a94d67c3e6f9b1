//! The per-student report, the per-moment processing loop, and the
//! batch planning rules.

use canvas_ladok::cache::GradeScaleCache;
use canvas_ladok::canvas::{Submission, User};
use canvas_ladok::errors::StudentError;
use canvas_ladok::dates::{Date, OffsetTimestamp, Timestamp};
use canvas_ladok::report::{process_moment, ExportResults};
use canvas_ladok::types::{
    Betygsgrad, BetygsgradID, Betygskala, BetygsskalaID, Rapporteringskontext, Resultat,
    ResultatPaUtbildning, SkapaFlera, SkapaResultat, SokresultatStudieresultatResultat, Student,
    Studieresultat, UppdateraFlera, UppdateraResultat, LarosateID,
};

// 2024-01-10T12:00:00Z.
const JAN_10: i64 = 1704888000;

fn cache() -> GradeScaleCache {
    let mut c = GradeScaleCache::new();
    c.insert_scale(
        BetygsskalaID(9),
        Betygskala {
            Betygsgrad: vec![
                Betygsgrad { GiltigSomSlutbetyg: true, ID: BetygsgradID(1), Kod: "A".to_string() },
                Betygsgrad { GiltigSomSlutbetyg: true, ID: BetygsgradID(2), Kod: "B".to_string() },
            ],
            ID: BetygsskalaID(9),
            Kod: "AB".to_string(),
        },
    );
    c
}

fn container(uid: &str, arbetsunderlag: Option<Resultat>) -> Studieresultat {
    Studieresultat {
        LarosateID: None,
        SenastSparad: None,
        SenastAndradAv: None,
        Uid: Some(format!("res-{}", uid)),
        AktuellKursinstans: None,
        AktuelltKurstillfalle: None,
        KursUID: None,
        Rapporteringskontext: Some(Rapporteringskontext {
            Anonymiseringskod: None,
            BetygsskalaID: Some(BetygsskalaID(9)),
            KravPaHanvisningTillBeslutshandling: false,
            KravPaProjekttitel: false,
            UtbildningUID: "edu-1".to_string(),
            UtbildningsinstansUID: "moment-1".to_string(),
        }),
        ResultatPaUtbildningar: vec![ResultatPaUtbildning {
            Arbetsunderlag: arbetsunderlag,
            HarTillgodoraknande: None,
            HeltTillgodoraknad: None,
            KanExkluderas: None,
            SenastAttesteradeResultat: None,
            UtbildningUID: None,
        }],
        SenastRegistrerad: None,
        Student: Some(Student { Uid: uid.to_string() }),
    }
}

fn draft(grade_id: u32) -> Resultat {
    Resultat {
        Uid: Some("draft-1".to_string()),
        AktivitetstillfalleUID: None,
        Betygsgrad: Some(BetygsgradID(grade_id)),
        BetygsskalaID: Some(BetygsskalaID(9)),
        Examinationsdatum: Some(Date { year: 2024, month: 1, day: 10 }),
        SenasteResultatandring: Some(Timestamp { secs: 1700000000, nanos: 0 }),
        StudieresultatUID: None,
        UtbildningsinstansUID: Some("moment-1".to_string()),
    }
}

fn submission(user_id: u32, uid: Option<&str>, grade: Option<&str>) -> Submission {
    Submission {
        assignment_id: Some(77),
        grade: grade.map(|g| g.to_string()),
        user: Some(User {
            id: user_id,
            name: None,
            integration_id: uid.map(|u| u.to_string()),
        }),
        graded_at: Some(OffsetTimestamp { secs: JAN_10, offset_secs: 0 }),
        grader_id: None,
    }
}

#[test]
fn report_lines_accumulate_per_student() {
    let mut r = ExportResults::new();
    assert_eq!(r.created, Ok(0));
    assert_eq!(r.updated, Ok(0));
    r.add(7, " No grade ");
    r.add(3, " Created (A) ");
    r.add(7, " Error (x)");
    assert_eq!(r.students, vec![
        (7, " No grade  Error (x)".to_string()),
        (3, " Created (A) ".to_string()),
    ]);
}

#[test]
fn process_moment_queues_and_reports() {
    let c = cache();
    let set = SokresultatStudieresultatResultat {
        Resultat: vec![
            container("s1", Some(draft(1))),
            container("s2", Some(draft(1))),
            container("s3", None),
        ],
        TotaltAntalPoster: 3,
    };
    let subs = vec![
        submission(501, Some("s1"), Some("A")),  // unchanged
        submission(502, Some("s2"), Some("B")),  // regrade: update
        submission(503, Some("s3"), Some("a")),  // new: create
        submission(504, Some("s4"), Some("A")),  // not in the registry set
        submission(505, Some("s5"), None),       // no grade
        submission(506, None, Some("A")),        // no registry id
        {
            let mut other = submission(507, Some("s1"), Some("A"));
            other.assignment_id = Some(78);      // another assignment
            other
        },
        {
            let mut userless = submission(508, Some("s1"), Some("A"));
            userless.user = None;                // no author at all
            userless
        },
    ];
    let mut results = ExportResults::new();
    let moment = "moment-1".to_string();
    let (creates, updates) = process_moment(&c, &set, &moment, 77, &subs, &mut results);

    assert_eq!(creates.len(), 1);
    assert_eq!(creates[0].Betygsgrad, Some(BetygsgradID(1)));
    assert_eq!(creates[0].UtbildningsinstansUID.as_deref(), Some("moment-1"));
    assert_eq!(updates.len(), 1);
    assert_eq!(updates[0].Betygsgrad, Some(BetygsgradID(2)));

    assert_eq!(results.students, vec![
        (501, " No change (A) ".to_string()),
        (502, " Updated (B) ".to_string()),
        (503, " Created (A) ".to_string()),
        (504, " Error (Student s4 not in Ladok result-list)".to_string()),
        (505, " No grade ".to_string()),
        (506, " Error (Submission author has no Ladok id)".to_string()),
    ]);
    assert_eq!(results.created, Ok(0));
    assert_eq!(results.updated, Ok(0));
}

#[test]
fn empty_create_queue_is_never_submitted() {
    assert_eq!(SkapaFlera::plan(vec![]), None);
    assert_eq!(UppdateraFlera::plan(vec![]), None);
}

#[test]
fn nonempty_queues_become_one_batch_each() {
    let c1 = SkapaResultat {
        Uid: Some("r1".to_string()),
        Betygsgrad: Some(BetygsgradID(1)),
        BetygsskalaID: BetygsskalaID(9),
        Examinationsdatum: Some(Date { year: 2024, month: 1, day: 10 }),
        StudieresultatUID: Some("r1".to_string()),
        UtbildningsinstansUID: Some("moment-1".to_string()),
    };
    let c2 = SkapaResultat { Uid: Some("r2".to_string()), ..c1.clone() };
    let batch = SkapaFlera::plan(vec![c1.clone(), c2.clone()]).unwrap();
    assert_eq!(batch.LarosateID, LarosateID(29));
    assert_eq!(batch.Resultat, vec![c1, c2]);

    let u1 = UppdateraResultat {
        Uid: Some("r1".to_string()),
        Betygsgrad: Some(BetygsgradID(2)),
        BetygsskalaID: BetygsskalaID(9),
        Examinationsdatum: Some(Date { year: 2024, month: 1, day: 10 }),
        ResultatUID: Some("d1".to_string()),
        SenasteResultatandring: Some(Timestamp { secs: 1700000000, nanos: 0 }),
    };
    let batch = UppdateraFlera::plan(vec![u1.clone()]).unwrap();
    assert_eq!(batch.LarosateID, LarosateID(29));
    assert_eq!(batch.Resultat, vec![u1]);
}

#[test]
fn error_texts_name_the_student() {
    assert_eq!(
        StudentError::StudentNotFound.text("s9"),
        "Student s9 not in Ladok result-list"
    );
    assert_eq!(
        StudentError::MissingGradeScale.text("s9"),
        "Missing Betygskala for student s9"
    );
    assert_eq!(
        StudentError::UnknownGrade { grade: "q".to_string(), scale: "AB".to_string() }.text("s9"),
        "Grade \"q\" not in AB"
    );
    assert_eq!(
        StudentError::MissingGradedAt.text("s9"),
        "Submission missing graded_at for student s9"
    );
}
