//! The per-student report and the per-moment processing loop: every
//! relevant submission is classified, queued for creation or update as
//! required, and its outcome recorded against its author.

use vstd::prelude::*;
use vstd::string::StringExecFns;

use crate::cache::GradeScaleCache;
use crate::canvas::Submission;
use crate::errors::{spec_error_text, StudentError};
use crate::reconcile::{classify, prepare_ladok_change, ChangeToLadok};
use crate::types::{SkapaResultat, SokresultatStudieresultatResultat, UppdateraResultat};

verus! {

/// The report text as a map: each student's accumulated status line.
pub open spec fn report_map(s: Seq<(u32, String)>) -> Map<u32, Seq<char>>
    decreases s.len(),
{
    if s.len() == 0 {
        Map::empty()
    } else {
        report_map(s.drop_last()).insert(s.last().0, s.last().1@)
    }
}

/// A student stands in the report exactly when an entry carries their
/// key.
proof fn lemma_report_map_keys(s: Seq<(u32, String)>)
    ensures
        forall|k: u32|
            report_map(s).contains_key(k) == (exists|i: int| 0 <= i < s.len() && s[i].0 == k),
    decreases s.len(),
{
    if s.len() > 0 {
        lemma_report_map_keys(s.drop_last());
        assert forall|k: u32|
            report_map(s).contains_key(k) == (exists|i: int|
                0 <= i < s.len() && s[i].0 == k) by {
            if k == s.last().0 {
                assert(s[s.len() - 1].0 == k);
            } else {
                assert(report_map(s).contains_key(k) == report_map(s.drop_last()).contains_key(k));
                if report_map(s.drop_last()).contains_key(k) {
                    let i = choose|i: int| 0 <= i < s.drop_last().len() && s.drop_last()[i].0 == k;
                    assert(s.drop_last()[i] == s[i]);
                    assert(s[i].0 == k);
                }
                if exists|i: int| 0 <= i < s.len() && s[i].0 == k {
                    let i = choose|i: int| 0 <= i < s.len() && s[i].0 == k;
                    assert(i < s.len() - 1);
                    assert(s.drop_last()[i] == s[i]);
                    assert(s.drop_last()[i].0 == k);
                    assert(report_map(s.drop_last()).contains_key(k));
                }
            }
        }
    }
}

/// An entry whose key recurs nowhere later holds that student's text.
proof fn lemma_report_map_at(s: Seq<(u32, String)>, i: int)
    requires
        0 <= i < s.len(),
        forall|j: int| i < j < s.len() ==> s[j].0 != s[i].0,
    ensures
        report_map(s).contains_key(s[i].0),
        report_map(s)[s[i].0] == s[i].1@,
    decreases s.len(),
{
    if i < s.len() - 1 {
        assert(s.drop_last()[i] == s[i]);
        lemma_report_map_at(s.drop_last(), i);
    }
}

/// Replacing the one entry of a student rewrites exactly their text.
proof fn lemma_report_map_update(s: Seq<(u32, String)>, i: int, e: (u32, String))
    requires
        0 <= i < s.len(),
        e.0 == s[i].0,
        forall|j: int| 0 <= j < s.len() && j != i ==> s[j].0 != s[i].0,
    ensures
        report_map(s.update(i, e)) == report_map(s).insert(e.0, e.1@),
    decreases s.len(),
{
    let k = e.0;
    let s2 = s.update(i, e);
    if i == s.len() - 1 {
        assert(s2.drop_last() =~= s.drop_last());
        assert(s2.last() == e);
        assert(report_map(s.drop_last()).insert(k, s[i].1@).insert(k, e.1@) =~= report_map(
            s.drop_last(),
        ).insert(k, e.1@));
    } else {
        assert(s2.drop_last() =~= s.drop_last().update(i, e));
        assert(s.drop_last()[i] == s[i]);
        lemma_report_map_update(s.drop_last(), i, e);
        let last = s.last();
        assert(s2.last() == last);
        assert(last.0 != k);
        assert(report_map(s.drop_last()).insert(k, e.1@).insert(last.0, last.1@) =~= report_map(
            s.drop_last(),
        ).insert(last.0, last.1@).insert(k, e.1@));
    }
}

/// A new student's entry adds exactly their text.
proof fn lemma_report_map_push(s: Seq<(u32, String)>, k: u32, v: String)
    ensures
        report_map(s.push((k, v))) == report_map(s).insert(k, v@),
{
    assert(s.push((k, v)).drop_last() =~= s);
    assert(s.push((k, v)).last() == (k, v));
}

/// The sync report: one accumulated status line per student, and the
/// outcome of each batch submission of the moment.
#[derive(Debug, PartialEq)]
pub struct ExportResults {
    pub students: Vec<(u32, String)>,
    pub created: Result<usize, String>,
    pub updated: Result<usize, String>,
}

impl ExportResults {
    /// Each student appears at most once.
    pub open spec fn wf(self) -> bool {
        forall|i: int, j: int|
            0 <= i < j < self.students@.len() ==> self.students@[i].0 != self.students@[j].0
    }

    /// The report seen as a map from student to status text.
    pub open spec fn spec_report(self) -> Map<u32, Seq<char>> {
        report_map(self.students@)
    }

    /// An empty report with both batch outcomes counting zero.
    pub fn new() -> (r: ExportResults)
        ensures
            r.wf(),
            r.spec_report() == Map::<u32, Seq<char>>::empty(),
            r.created == Ok::<usize, String>(0),
            r.updated == Ok::<usize, String>(0),
    {
        ExportResults { students: Vec::new(), created: Ok(0), updated: Ok(0) }
    }

    /// Append a status to one student's line, starting the line when
    /// the student has none yet.  Nothing else changes.
    pub fn add(&mut self, student: u32, status: &str)
        requires
            old(self).wf(),
        ensures
            final(self).wf(),
            final(self).created == old(self).created,
            final(self).updated == old(self).updated,
            final(self).spec_report() == old(self).spec_report().insert(
                student,
                (if old(self).spec_report().contains_key(student) {
                    old(self).spec_report()[student]
                } else {
                    Seq::<char>::empty()
                }) + status@,
            ),
    {
        let n = self.students.len();
        let mut i: usize = 0;
        while i < n
            invariant
                i <= n,
                n == self.students@.len(),
                old(self).wf(),
                self.students@ == old(self).students@,
                self.created == old(self).created,
                self.updated == old(self).updated,
                forall|j: int| 0 <= j < i ==> self.students@[j].0 != student,
            decreases n - i,
        {
            if self.students[i].0 == student {
                let ghost pre = self.students@;
                proof {
                    assert forall|j: int|
                        0 <= j < pre.len() && j != i implies pre[j].0 != pre[i as int].0 by {
                        if j < i {
                            assert(pre[j].0 != student);
                        } else {
                            assert(self.students@[i as int].0 != self.students@[j].0);
                        }
                    }
                    lemma_report_map_at(pre, i as int);
                }
                let entry = self.students.remove(i);
                let (key, mut text) = entry;
                text.append(status);
                let entry2 = (key, text);
                self.students.insert(i, entry2);
                proof {
                    assert(self.students@ =~= pre.update(i as int, entry2));
                    lemma_report_map_update(pre, i as int, entry2);
                    assert forall|a: int, b: int|
                        0 <= a < b < self.students@.len() implies self.students@[a].0
                        != self.students@[b].0 by {
                        assert(pre[a].0 != pre[b].0);
                        assert(self.students@[a].0 == pre[a].0);
                        assert(self.students@[b].0 == pre[b].0);
                    }
                }
                return ;
            }
            i = i + 1;
        }
        let ghost pre = self.students@;
        let line = String::from_str(status);
        self.students.push((student, line));
        proof {
            lemma_report_map_push(pre, student, line);
            lemma_report_map_keys(pre);
            assert(Seq::<char>::empty() + status@ =~= status@);
            assert forall|a: int, b: int|
                0 <= a < b < self.students@.len() implies self.students@[a].0
                != self.students@[b].0 by {
                if b == pre.len() as int {
                    assert(pre[a].0 != student);
                }
            }
        }
    }
}

/// Does the submission take part in this assignment's sync: it belongs
/// to the assignment and names its author?
pub open spec fn relevant(sub: Submission, assignment_id: i32) -> bool {
    sub.assignment_id == Some(assignment_id) && sub.user is Some
}

/// The registry identifier of the submission's author, as text; empty
/// when none is known.
pub open spec fn student_uid_text(sub: Submission) -> Seq<char> {
    match sub.user {
        Some(u) => match u.integration_id {
            Some(uid) => uid@,
            None => Seq::empty(),
        },
        None => Seq::empty(),
    }
}

/// The outcome of one submission: its author's registry identifier
/// must be known, then the reconciliation engine decides.
pub open spec fn sub_outcome(
    cache: GradeScaleCache,
    resultat: SokresultatStudieresultatResultat,
    moment: String,
    sub: Submission,
) -> Result<ChangeToLadok, StudentError> {
    match sub.user {
        Some(u) => match u.integration_id {
            Some(uid) => classify(cache, uid@, resultat, moment, sub),
            None => Err(StudentError::MissingStudentId),
        },
        None => Err(StudentError::MissingStudentId),
    }
}

/// The report line an outcome earns.
pub open spec fn spec_line(
    outcome: Result<ChangeToLadok, StudentError>,
    student: Seq<char>,
) -> Seq<char> {
    match outcome {
        Ok(ChangeToLadok::Update(_, kod)) => " Updated ("@ + kod@ + ") "@,
        Ok(ChangeToLadok::Create(_, kod)) => " Created ("@ + kod@ + ") "@,
        Ok(ChangeToLadok::NoChange(kod)) => " No change ("@ + kod@ + ") "@,
        Ok(ChangeToLadok::NoGrade) => " No grade "@,
        Err(e) => " Error ("@ + spec_error_text(e, student) + ")"@,
    }
}

/// The create and update queues after processing the submissions in
/// order: each relevant submission's outcome appends its payload to
/// the matching queue.
pub open spec fn queues_spec(
    cache: GradeScaleCache,
    resultat: SokresultatStudieresultatResultat,
    moment: String,
    assignment_id: i32,
    subs: Seq<Submission>,
) -> (Seq<SkapaResultat>, Seq<UppdateraResultat>)
    decreases subs.len(),
{
    if subs.len() == 0 {
        (Seq::empty(), Seq::empty())
    } else {
        let (c, u) = queues_spec(cache, resultat, moment, assignment_id, subs.drop_last());
        let s = subs.last();
        if relevant(s, assignment_id) {
            match sub_outcome(cache, resultat, moment, s) {
                Ok(ChangeToLadok::Create(d, _)) => (c.push(d), u),
                Ok(ChangeToLadok::Update(d, _)) => (c, u.push(d)),
                _ => (c, u),
            }
        } else {
            (c, u)
        }
    }
}

/// The report after processing the submissions in order: each relevant
/// submission appends its line to its author's entry.
pub open spec fn report_after(
    m: Map<u32, Seq<char>>,
    cache: GradeScaleCache,
    resultat: SokresultatStudieresultatResultat,
    moment: String,
    assignment_id: i32,
    subs: Seq<Submission>,
) -> Map<u32, Seq<char>>
    decreases subs.len(),
{
    if subs.len() == 0 {
        m
    } else {
        let m1 = report_after(m, cache, resultat, moment, assignment_id, subs.drop_last());
        let s = subs.last();
        if relevant(s, assignment_id) {
            let key = s.user->Some_0.id;
            let line = spec_line(sub_outcome(cache, resultat, moment, s), student_uid_text(s));
            m1.insert(
                key,
                (if m1.contains_key(key) {
                    m1[key]
                } else {
                    Seq::<char>::empty()
                }) + line,
            )
        } else {
            m1
        }
    }
}

/// Process every submission of one assignment against one
/// course-moment: classify each relevant one, queue its create or
/// update payload, and record its outcome against its author.  Returns
/// the two queues, ready for [`crate::types::SkapaFlera::plan`] and
/// [`crate::types::UppdateraFlera::plan`].
pub fn process_moment(
    cache: &GradeScaleCache,
    resultat: &SokresultatStudieresultatResultat,
    moment_id: &String,
    assignment_id: i32,
    submissions: &Vec<Submission>,
    results: &mut ExportResults,
) -> (queues: (Vec<SkapaResultat>, Vec<UppdateraResultat>))
    requires
        old(results).wf(),
    ensures
        final(results).wf(),
        final(results).created == old(results).created,
        final(results).updated == old(results).updated,
        (queues.0@, queues.1@) == queues_spec(
            *cache,
            *resultat,
            *moment_id,
            assignment_id,
            submissions@,
        ),
        final(results).spec_report() == report_after(
            old(results).spec_report(),
            *cache,
            *resultat,
            *moment_id,
            assignment_id,
            submissions@,
        ),
{
    let mut create_queue: Vec<SkapaResultat> = Vec::new();
    let mut update_queue: Vec<UppdateraResultat> = Vec::new();
    let n = submissions.len();
    let mut i: usize = 0;
    while i < n
        invariant
            i <= n,
            n == submissions@.len(),
            results.wf(),
            results.created == old(results).created,
            results.updated == old(results).updated,
            (create_queue@, update_queue@) == queues_spec(
                *cache,
                *resultat,
                *moment_id,
                assignment_id,
                submissions@.subrange(0, i as int),
            ),
            results.spec_report() == report_after(
                old(results).spec_report(),
                *cache,
                *resultat,
                *moment_id,
                assignment_id,
                submissions@.subrange(0, i as int),
            ),
        decreases n - i,
    {
        let sub = &submissions[i];
        proof {
            assert(submissions@.subrange(0, i + 1).drop_last() =~= submissions@.subrange(
                0,
                i as int,
            ));
            assert(submissions@.subrange(0, i + 1).last() == submissions@[i as int]);
        }
        let aid_match = match sub.assignment_id {
            Some(a) => a == assignment_id,
            None => false,
        };
        if aid_match {
            match &sub.user {
                Some(user) => {
                    match &user.integration_id {
                        Some(uid) => {
                            match prepare_ladok_change(
                                cache,
                                uid.as_str(),
                                resultat,
                                moment_id,
                                sub,
                            ) {
                                Ok(ChangeToLadok::Update(data, kod)) => {
                                    update_queue.push(data);
                                    let line = String::from_str(" Updated (").concat(
                                        kod.as_str(),
                                    ).concat(") ");
                                    results.add(user.id, line.as_str());
                                },
                                Ok(ChangeToLadok::Create(data, kod)) => {
                                    create_queue.push(data);
                                    let line = String::from_str(" Created (").concat(
                                        kod.as_str(),
                                    ).concat(") ");
                                    results.add(user.id, line.as_str());
                                },
                                Ok(ChangeToLadok::NoChange(kod)) => {
                                    let line = String::from_str(" No change (").concat(
                                        kod.as_str(),
                                    ).concat(") ");
                                    results.add(user.id, line.as_str());
                                },
                                Ok(ChangeToLadok::NoGrade) => {
                                    results.add(user.id, " No grade ");
                                },
                                Err(e) => {
                                    let msg = e.text(uid.as_str());
                                    let line = String::from_str(" Error (").concat(
                                        msg.as_str(),
                                    ).concat(")");
                                    results.add(user.id, line.as_str());
                                },
                            }
                        },
                        None => {
                            let e = StudentError::MissingStudentId;
                            let msg = e.text("");
                            let line = String::from_str(" Error (").concat(msg.as_str()).concat(
                                ")",
                            );
                            results.add(user.id, line.as_str());
                        },
                    }
                },
                None => {},
            }
        }
        i = i + 1;
    }
    proof {
        assert(submissions@.subrange(0, n as int) =~= submissions@);
    }
    (create_queue, update_queue)
}

} // verus!
