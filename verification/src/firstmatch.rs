//! First-match search in a sequence, the shape shared by every lookup in
//! the record model: the first grade with a given code, the first result
//! entry of a student, the first draft record of a course-moment.

use vstd::prelude::*;

verus! {

/// The index of the first element of `s` satisfying `p`, if any.
pub open spec fn find_first<T>(s: Seq<T>, p: spec_fn(T) -> bool) -> Option<int>
    decreases s.len(),
{
    if s.len() == 0 {
        None
    } else if p(s[0]) {
        Some(0)
    } else {
        match find_first(s.drop_first(), p) {
            Some(i) => Some(i + 1),
            None => None,
        }
    }
}

/// What a first-match index means: it is in range, it matches, nothing
/// before it matches; and a missing index means nothing matches at all.
pub proof fn lemma_find_first_props<T>(s: Seq<T>, p: spec_fn(T) -> bool)
    ensures
        match find_first(s, p) {
            Some(i) => 0 <= i < s.len() && p(s[i]) && (forall|j: int| 0 <= j < i ==> !p(s[j])),
            None => forall|j: int| 0 <= j < s.len() ==> !p(s[j]),
        },
    decreases s.len(),
{
    if s.len() > 0 && !p(s[0]) {
        lemma_find_first_props(s.drop_first(), p);
        match find_first(s.drop_first(), p) {
            Some(i) => {
                assert(s.drop_first()[i] == s[i + 1]);
                assert forall|j: int| 0 <= j < i + 1 implies !p(s[j]) by {
                    if j > 0 {
                        assert(!p(s.drop_first()[j - 1]));
                    }
                }
            },
            None => {
                assert forall|j: int| 0 <= j < s.len() implies !p(s[j]) by {
                    if j > 0 {
                        assert(!p(s.drop_first()[j - 1]));
                    }
                }
            },
        }
    }
}

/// The converse: a matching index with nothing matching before it is the
/// first match.
pub proof fn lemma_find_first_at<T>(s: Seq<T>, p: spec_fn(T) -> bool, i: int)
    requires
        0 <= i < s.len(),
        p(s[i]),
        forall|j: int| 0 <= j < i ==> !p(s[j]),
    ensures
        find_first(s, p) == Some(i),
    decreases s.len(),
{
    if i > 0 {
        assert(forall|j: int| 0 <= j < s.drop_first().len() ==> s.drop_first()[j] == s[j + 1]);
        lemma_find_first_at(s.drop_first(), p, i - 1);
    }
}

/// When nothing matches, the search comes up empty.
pub proof fn lemma_find_first_none<T>(s: Seq<T>, p: spec_fn(T) -> bool)
    requires
        forall|j: int| 0 <= j < s.len() ==> !p(s[j]),
    ensures
        find_first(s, p) is None,
    decreases s.len(),
{
    if s.len() > 0 {
        assert(forall|j: int| 0 <= j < s.drop_first().len() ==> s.drop_first()[j] == s[j + 1]);
        lemma_find_first_none(s.drop_first(), p);
    }
}

/// Replacing the first match by another matching element leaves the
/// match position where it was.
pub proof fn lemma_find_first_update<T>(s: Seq<T>, p: spec_fn(T) -> bool, i: int, x: T)
    requires
        find_first(s, p) == Some(i),
        p(x),
    ensures
        find_first(s.update(i, x), p) == Some(i),
{
    lemma_find_first_props(s, p);
    let s2 = s.update(i, x);
    assert(forall|j: int| 0 <= j < i ==> s2[j] == s[j]);
    lemma_find_first_at(s2, p, i);
}

/// Appending an element that does not match leaves the search result
/// as it was.
pub proof fn lemma_find_first_push_nomatch<T>(s: Seq<T>, p: spec_fn(T) -> bool, x: T)
    requires
        !p(x),
    ensures
        find_first(s.push(x), p) == find_first(s, p),
{
    lemma_find_first_props(s, p);
    let s2 = s.push(x);
    match find_first(s, p) {
        Some(i) => {
            assert(forall|j: int| 0 <= j < i ==> s2[j] == s[j]);
            assert(s2[i] == s[i]);
            lemma_find_first_at(s2, p, i);
        },
        None => {
            assert(forall|j: int| 0 <= j < s.len() ==> s2[j] == s[j]);
            lemma_find_first_none(s2, p);
        },
    }
}

/// Appending a matching element to a sequence without a match makes it
/// the first match.
pub proof fn lemma_find_first_push<T>(s: Seq<T>, p: spec_fn(T) -> bool, x: T)
    requires
        find_first(s, p) is None,
        p(x),
    ensures
        find_first(s.push(x), p) == Some(s.len() as int),
{
    lemma_find_first_props(s, p);
    let s2 = s.push(x);
    assert(forall|j: int| 0 <= j < s.len() ==> s2[j] == s[j]);
    lemma_find_first_at(s2, p, s.len() as int);
}

} // verus!
