//! The query grammar of inbound chat messages.
//!
//! A message asks "where can I find X" in one of a few fixed phrasings: a
//! question suffix after the subject, or a question prefix before it. The
//! filter recognises exactly those shapes and hands back the subject, the
//! candidate search keyword. The phrasings are mutually exclusive — no text
//! ends or starts with two of the alternatives at once — so checking them in
//! a fixed order yields the unique match.

use vstd::prelude::*;

verus! {

/// Does `t` end with `pat`?
pub open spec fn spec_ends_with(t: Seq<char>, pat: Seq<char>) -> bool {
    t.len() >= pat.len() && t.skip(t.len() - pat.len()) == pat
}

/// Does `t` start with `pat`?
pub open spec fn spec_starts_with(t: Seq<char>, pat: Seq<char>) -> bool {
    t.len() >= pat.len() && t.take(pat.len() as int) == pat
}

/// The suffix phrasing "在哪里" (where is ...).
pub open spec fn suf_zai_na_li() -> Seq<char> {
    seq!['在', '哪', '里']
}

/// The suffix phrasing "在哪儿".
pub open spec fn suf_zai_na_er() -> Seq<char> {
    seq!['在', '哪', '儿']
}

/// The phrasing "哪里有" (who has ...), both a suffix and a prefix.
pub open spec fn pat_na_li_you() -> Seq<char> {
    seq!['哪', '里', '有']
}

/// The phrasing "哪儿有", both a suffix and a prefix.
pub open spec fn pat_na_er_you() -> Seq<char> {
    seq!['哪', '儿', '有']
}

/// The suffix phrasing "在哪".
pub open spec fn suf_zai_na() -> Seq<char> {
    seq!['在', '哪']
}

/// The phrasing "哪有", both a suffix and a prefix.
pub open spec fn pat_na_you() -> Seq<char> {
    seq!['哪', '有']
}

/// The subject of a query message: the text with its question suffix
/// stripped, else the text with its question prefix stripped, else nothing.
pub open spec fn spec_filter_query(t: Seq<char>) -> Option<Seq<char>> {
    if spec_ends_with(t, suf_zai_na_li()) {
        Some(t.take(t.len() - 3))
    } else if spec_ends_with(t, suf_zai_na_er()) {
        Some(t.take(t.len() - 3))
    } else if spec_ends_with(t, pat_na_li_you()) {
        Some(t.take(t.len() - 3))
    } else if spec_ends_with(t, pat_na_er_you()) {
        Some(t.take(t.len() - 3))
    } else if spec_ends_with(t, suf_zai_na()) {
        Some(t.take(t.len() - 2))
    } else if spec_ends_with(t, pat_na_you()) {
        Some(t.take(t.len() - 2))
    } else if spec_starts_with(t, pat_na_li_you()) {
        Some(t.skip(3))
    } else if spec_starts_with(t, pat_na_er_you()) {
        Some(t.skip(3))
    } else if spec_starts_with(t, pat_na_you()) {
        Some(t.skip(2))
    } else {
        None
    }
}

fn pat2(a: char, b: char) -> (v: Vec<char>)
    ensures
        v@ =~= seq![a, b],
{
    let mut v: Vec<char> = Vec::new();
    v.push(a);
    v.push(b);
    v
}

fn pat3(a: char, b: char, c: char) -> (v: Vec<char>)
    ensures
        v@ =~= seq![a, b, c],
{
    let mut v: Vec<char> = Vec::new();
    v.push(a);
    v.push(b);
    v.push(c);
    v
}

fn ends_with_pat(text: &Vec<char>, pat: &Vec<char>) -> (r: bool)
    ensures
        r == spec_ends_with(text@, pat@),
{
    if text.len() < pat.len() {
        return false;
    }
    let off = text.len() - pat.len();
    let mut i: usize = 0;
    while i < pat.len()
        invariant
            text@.len() >= pat@.len(),
            off == text@.len() - pat@.len(),
            off + pat@.len() <= usize::MAX,
            i <= pat@.len(),
            forall|j: int| 0 <= j < i ==> text@[off + j] == pat@[j],
        decreases pat@.len() - i,
    {
        if text[off + i] != pat[i] {
            assert(text@.skip(off as int)[i as int] == text@[off + i]);
            return false;
        }
        i += 1;
    }
    assert(text@.skip(off as int) =~= pat@);
    true
}

fn starts_with_pat(text: &Vec<char>, pat: &Vec<char>) -> (r: bool)
    ensures
        r == spec_starts_with(text@, pat@),
{
    if text.len() < pat.len() {
        return false;
    }
    let mut i: usize = 0;
    while i < pat.len()
        invariant
            text@.len() >= pat@.len(),
            i <= pat@.len(),
            forall|j: int| 0 <= j < i ==> text@[j] == pat@[j],
        decreases pat@.len() - i,
    {
        if text[i] != pat[i] {
            assert(text@.take(pat@.len() as int)[i as int] == text@[i as int]);
            return false;
        }
        i += 1;
    }
    assert(text@.take(pat@.len() as int) =~= pat@);
    true
}

fn take_prefix(text: &Vec<char>, n: usize) -> (r: Vec<char>)
    requires
        n <= text@.len(),
    ensures
        r@ == text@.take(n as int),
{
    let mut r: Vec<char> = Vec::new();
    let mut i: usize = 0;
    while i < n
        invariant
            n <= text@.len(),
            i <= n,
            r@ =~= text@.take(i as int),
        decreases n - i,
    {
        r.push(text[i]);
        assert(r@ =~= text@.take(i + 1 as int));
        i += 1;
    }
    assert(r@ =~= text@.take(n as int));
    r
}

fn drop_prefix(text: &Vec<char>, n: usize) -> (r: Vec<char>)
    requires
        n <= text@.len(),
    ensures
        r@ == text@.skip(n as int),
{
    let mut r: Vec<char> = Vec::new();
    let mut i: usize = n;
    while i < text.len()
        invariant
            n <= i <= text@.len(),
            r@ =~= text@.subrange(n as int, i as int),
        decreases text@.len() - i,
    {
        r.push(text[i]);
        assert(r@ =~= text@.subrange(n as int, i + 1 as int));
        i += 1;
    }
    assert(r@ =~= text@.skip(n as int));
    r
}

/// Extracts the search keyword from a message text: the subject left after
/// stripping the question phrasing, or nothing when the text is no query at
/// all. The subject may be empty or all whitespace — judging its content is
/// the caller's business, not this filter's.
pub fn filter_query(text: &Vec<char>) -> (r: Option<Vec<char>>)
    ensures
        r is Some <==> spec_filter_query(text@) is Some,
        r matches Some(name) ==> Some(name@) == spec_filter_query(text@),
{
    let zai_na_li = pat3('在', '哪', '里');
    let zai_na_er = pat3('在', '哪', '儿');
    let na_li_you = pat3('哪', '里', '有');
    let na_er_you = pat3('哪', '儿', '有');
    let zai_na = pat2('在', '哪');
    let na_you = pat2('哪', '有');
    if ends_with_pat(text, &zai_na_li) {
        Some(take_prefix(text, text.len() - 3))
    } else if ends_with_pat(text, &zai_na_er) {
        Some(take_prefix(text, text.len() - 3))
    } else if ends_with_pat(text, &na_li_you) {
        Some(take_prefix(text, text.len() - 3))
    } else if ends_with_pat(text, &na_er_you) {
        Some(take_prefix(text, text.len() - 3))
    } else if ends_with_pat(text, &zai_na) {
        Some(take_prefix(text, text.len() - 2))
    } else if ends_with_pat(text, &na_you) {
        Some(take_prefix(text, text.len() - 2))
    } else if starts_with_pat(text, &na_li_you) {
        Some(drop_prefix(text, 3))
    } else if starts_with_pat(text, &na_er_you) {
        Some(drop_prefix(text, 3))
    } else if starts_with_pat(text, &na_you) {
        Some(drop_prefix(text, 2))
    } else {
        None
    }
}

} // verus!
