//! Following a paginated source to exhaustion.  The course-room system
//! names the next page in a structured link header; the parser below
//! extracts the entry with the `next` relation.  Pages already fetched
//! are folded into one collection in page-arrival order, without any
//! de-duplication.

use vstd::prelude::*;
use vstd::string::StrSliceExecFns;

verus! {

/// The tail every next-page entry of the link header ends in:
/// `>; rel="next"`.
pub open spec fn next_marker() -> Seq<char> {
    seq!['>', ';', ' ', 'r', 'e', 'l', '=', '"', 'n', 'e', 'x', 't', '"']
}

/// Is `seg` a link-header entry carrying the `next` relation: `<`, the
/// URL, then exactly the marker tail?
pub open spec fn is_next_entry(seg: Seq<char>) -> bool {
    seg.len() >= 14 && seg[0] == '<' && seg.subrange(seg.len() - 13, seg.len() as int)
        == next_marker()
}

/// The URL inside a next-page entry: what stands between the `<` and
/// the marker tail.
pub open spec fn entry_url(seg: Seq<char>) -> Seq<char> {
    seg.subrange(1, seg.len() - 13)
}

/// How many characters the first comma-separated segment of `s` holds.
pub open spec fn seg_len(s: Seq<char>) -> nat
    decreases s.len(),
{
    if s.len() == 0 {
        0
    } else if s[0] == ',' {
        0
    } else {
        1 + seg_len(s.drop_first())
    }
}

/// The URL of the first comma-separated segment that is a next-page
/// entry, if the header has one.
pub open spec fn next_url_of(s: Seq<char>) -> Option<Seq<char>>
    decreases s.len(),
{
    let l = seg_len(s) as int;
    let seg = s.subrange(0, l);
    if is_next_entry(seg) {
        Some(entry_url(seg))
    } else if l >= s.len() {
        None
    } else {
        next_url_of(s.subrange(l + 1, s.len() as int))
    }
}

/// A segment reaches to `k` exactly when no comma stands before `k` and
/// `k` is the end or a comma.
proof fn lemma_seg_len_at(s: Seq<char>, k: int)
    requires
        0 <= k <= s.len(),
        forall|j: int| 0 <= j < k ==> s[j] != ',',
        k == s.len() || s[k] == ',',
    ensures
        seg_len(s) == k,
    decreases s.len(),
{
    if k > 0 {
        assert(forall|j: int| 0 <= j < s.drop_first().len() ==> s.drop_first()[j] == s[j + 1]);
        lemma_seg_len_at(s.drop_first(), k - 1);
    }
}

/// The character of the marker tail at position `k`.
fn marker_char(k: usize) -> (c: char)
    requires
        k < 13,
    ensures
        c == next_marker()[k as int],
{
    match k {
        0 => '>',
        1 => ';',
        2 => ' ',
        3 => 'r',
        4 => 'e',
        5 => 'l',
        6 => '=',
        7 => '"',
        8 => 'n',
        9 => 'e',
        10 => 'x',
        11 => 't',
        _ => '"',
    }
}

/// The position of the comma that ends the segment starting at `pos`,
/// or the end of the string.
fn seg_end(links: &str, pos: usize, n: usize) -> (e: usize)
    requires
        pos <= n,
        n == links@.len(),
    ensures
        pos <= e <= n,
        forall|j: int| pos <= j < e ==> links@[j] != ',',
        e < n ==> links@[e as int] == ',',
{
    let mut e: usize = pos;
    while e < n
        invariant
            pos <= e <= n,
            n == links@.len(),
            forall|j: int| pos <= j < e ==> links@[j] != ',',
        decreases n - e,
    {
        if links.get_char(e) == ',' {
            return e;
        }
        e = e + 1;
    }
    e
}

/// Is the segment of `l` characters starting at `pos` a next-page
/// entry?
fn is_next_seg(links: &str, pos: usize, l: usize) -> (r: bool)
    requires
        pos + l <= links@.len(),
        links@.len() <= usize::MAX,
    ensures
        r == is_next_entry(links@.subrange(pos as int, (pos + l) as int)),
{
    let ghost seg = links@.subrange(pos as int, (pos + l) as int);
    if l < 14 {
        return false;
    }
    if links.get_char(pos) != '<' {
        proof {
            assert(seg[0] == links@[pos as int]);
        }
        return false;
    }
    let mut j: usize = 0;
    while j < 13
        invariant
            j <= 13,
            14 <= l,
            pos + l <= links@.len(),
            links@.len() <= usize::MAX,
            seg == links@.subrange(pos as int, (pos + l) as int),
            seg[0] == '<',
            forall|t: int| 0 <= t < j ==> seg[l - 13 + t] == next_marker()[t],
        decreases 13 - j,
    {
        let c = links.get_char(pos + l - 13 + j);
        let m = marker_char(j);
        proof {
            assert(seg[(l - 13 + j) as int] == links@[(pos + l - 13 + j) as int]);
        }
        if c != m {
            proof {
                assert(seg.subrange(l - 13, l as int)[j as int] == seg[(l - 13 + j) as int]);
                assert(seg.subrange(l - 13, l as int) != next_marker());
            }
            return false;
        }
        j = j + 1;
    }
    proof {
        assert forall|t: int| 0 <= t < 13 implies seg.subrange(l - 13, l as int)[t]
            == next_marker()[t] by {
            assert(seg.subrange(l - 13, l as int)[t] == seg[l - 13 + t]);
        }
        assert(seg.subrange(l - 13, l as int) =~= next_marker());
    }
    true
}

/// Extract the next-page URL from a comma-separated link header: the
/// first entry written `<url>; rel="next"`.  A header whose entries all
/// carry other relations (`current`, `first`, ...) has no next page.
pub fn get_next_url(links: &str) -> (r: Option<String>)
    ensures
        match r {
            Some(u) => next_url_of(links@) == Some(u@),
            None => next_url_of(links@) is None,
        },
{
    let n = links.unicode_len();
    let mut pos: usize = 0;
    proof {
        assert(links@.subrange(0, n as int) =~= links@);
    }
    loop
        invariant
            pos <= n,
            n == links@.len(),
            next_url_of(links@) == next_url_of(links@.subrange(pos as int, n as int)),
        decreases n - pos,
    {
        let ghost suffix = links@.subrange(pos as int, n as int);
        let e = seg_end(links, pos, n);
        let l = e - pos;
        proof {
            assert(forall|j: int| 0 <= j < suffix.len() ==> suffix[j] == links@[j + pos]);
            lemma_seg_len_at(suffix, l as int);
            assert(suffix.subrange(0, l as int) =~= links@.subrange(pos as int, (pos + l) as int));
        }
        if is_next_seg(links, pos, l) {
            let url = links.substring_char(pos + 1, pos + l - 13).to_owned();
            proof {
                let seg = suffix.subrange(0, l as int);
                assert(entry_url(seg) =~= links@.subrange(
                    (pos + 1) as int,
                    (pos + l - 13) as int,
                ));
            }
            return Some(url);
        }
        if e == n {
            return None;
        }
        proof {
            assert(suffix.subrange(l + 1 as int, suffix.len() as int) =~= links@.subrange(
                (pos + l + 1) as int,
                n as int,
            ));
        }
        pos = e + 1;
    }
}

/// The combined length of a sequence of pages.
pub open spec fn total_len<T>(pages: Seq<Seq<T>>) -> int
    decreases pages.len(),
{
    if pages.len() == 0 {
        0
    } else {
        pages.first().len() + total_len(pages.drop_first())
    }
}

/// Pagination completeness: flattening the pages yields exactly as many
/// items as the pages hold together.
pub proof fn lemma_flatten_total_len<T>(pages: Seq<Seq<T>>)
    ensures
        pages.flatten().len() == total_len(pages),
    decreases pages.len(),
{
    if pages.len() > 0 {
        lemma_flatten_total_len(pages.drop_first());
    }
}

/// The contents of fetched pages, each as a sequence.
pub open spec fn page_views<T>(pages: Seq<Vec<T>>) -> Seq<Seq<T>> {
    Seq::new(pages.len(), |i: int| pages[i]@)
}

/// Fold fetched pages into one collection, keeping page-arrival order
/// and every item: the result is exactly the pages laid end to end.
pub fn collect_pages<T>(pages: Vec<Vec<T>>) -> (r: Vec<T>)
    ensures
        r@ == page_views(pages@).flatten(),
{
    let ghost all = page_views(pages@);
    let mut acc: Vec<T> = Vec::new();
    let mut rest = pages;
    while rest.len() > 0
        invariant
            acc@ + page_views(rest@).flatten() == all.flatten(),
        decreases rest.len(),
    {
        let ghost pre = page_views(rest@);
        let mut page = rest.remove(0);
        proof {
            assert(page_views(rest@) =~= pre.drop_first());
            assert(pre.flatten() == pre.first() + pre.drop_first().flatten());
            assert(acc@ + page@ + page_views(rest@).flatten() =~= acc@ + pre.flatten());
        }
        acc.append(&mut page);
    }
    proof {
        assert(page_views(rest@).flatten() =~= Seq::<T>::empty());
        assert(acc@ =~= all.flatten());
    }
    acc
}

} // verus!
