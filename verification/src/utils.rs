//! Text building blocks: decimal rendering of ids and status codes,
//! character-sequence conversion, and the fixed search parameter set.

use vstd::prelude::*;

use vstd::string::StringExecFns;

verus! {

/// The decimal digit character of `d`.
pub open spec fn digit_char(d: nat) -> char {
    if d == 0 {
        '0'
    } else if d == 1 {
        '1'
    } else if d == 2 {
        '2'
    } else if d == 3 {
        '3'
    } else if d == 4 {
        '4'
    } else if d == 5 {
        '5'
    } else if d == 6 {
        '6'
    } else if d == 7 {
        '7'
    } else if d == 8 {
        '8'
    } else {
        '9'
    }
}

/// The decimal representation of `n`, most significant digit first, without
/// leading zeros (a single `'0'` for zero itself).
pub open spec fn dec_rep(n: nat) -> Seq<char>
    decreases n,
{
    if n < 10 {
        seq![digit_char(n)]
    } else {
        dec_rep(n / 10).push(digit_char(n % 10))
    }
}

/// The decimal representation of a signed value: a minus sign before the
/// magnitude for negative values.
pub open spec fn dec_rep_signed(n: int) -> Seq<char> {
    if n < 0 {
        seq!['-'] + dec_rep((-n) as nat)
    } else {
        dec_rep(n as nat)
    }
}

/// Relies on `String::push`: appends exactly the given character.
#[verifier::external_body]
fn push_char(s: &mut String, c: char)
    ensures
        final(s)@ == old(s)@ + seq![c],
{
    s.push(c)
}

/// Builds the string holding exactly the given characters.
pub fn chars_to_string(cs: &Vec<char>) -> (r: String)
    ensures
        r@ == cs@,
{
    let mut r = String::new();
    let mut i: usize = 0;
    while i < cs.len()
        invariant
            i <= cs@.len(),
            r@ =~= cs@.take(i as int),
        decreases cs@.len() - i,
    {
        push_char(&mut r, cs[i]);
        assert(r@ =~= cs@.take(i + 1 as int));
        i += 1;
    }
    assert(r@ =~= cs@);
    r
}

fn digit_of(d: u64) -> (c: char)
    requires
        d < 10,
    ensures
        c == digit_char(d as nat),
{
    if d == 0 {
        '0'
    } else if d == 1 {
        '1'
    } else if d == 2 {
        '2'
    } else if d == 3 {
        '3'
    } else if d == 4 {
        '4'
    } else if d == 5 {
        '5'
    } else if d == 6 {
        '6'
    } else if d == 7 {
        '7'
    } else if d == 8 {
        '8'
    } else {
        '9'
    }
}

/// Renders `n` in decimal.
pub fn u64_to_string(n: u64) -> (r: String)
    ensures
        r@ == dec_rep(n as nat),
{
    let mut digits: Vec<char> = Vec::new();
    let mut m: u64 = n;
    while m >= 10
        invariant
            dec_rep(n as nat) =~= dec_rep(m as nat) + digits@,
        decreases m,
    {
        let d = digit_of(m % 10);
        let ghost old_digits = digits@;
        digits.insert(0, d);
        assert(digits@ =~= seq![d] + old_digits);
        assert(dec_rep(m as nat) + old_digits =~= dec_rep((m / 10) as nat) + digits@);
        m = m / 10;
    }
    let d = digit_of(m);
    let ghost old_digits = digits@;
    digits.insert(0, d);
    assert(digits@ =~= seq![d] + old_digits);
    assert(dec_rep(n as nat) =~= digits@);
    chars_to_string(&digits)
}

/// Renders `n` in decimal, with a minus sign when it is negative.
pub fn i64_to_string(n: i64) -> (r: String)
    ensures
        r@ == dec_rep_signed(n as int),
{
    if n >= 0 {
        u64_to_string(n as u64)
    } else {
        let wide: i128 = n as i128;
        let mag: u64 = (-wide) as u64;
        let digits = u64_to_string(mag);
        let mut r = String::new();
        push_char(&mut r, '-');
        let r2 = r.concat(digits.as_str());
        assert(r2@ =~= dec_rep_signed(n as int));
        r2
    }
}

/// The query parameter set of one search call: a page size fixed at two
/// results, the channel identifier, and the keyword, in that order. The
/// keyword is passed through unmodified, whatever it holds; the signature
/// fields are appended later, at the signing boundary.
pub fn search_params(mid: u64, keyword: &String) -> (r: Vec<(String, String)>)
    ensures
        r@.len() == 3,
        r@[0].0@ == "ps"@ && r@[0].1@ == "2"@,
        r@[1].0@ == "mid"@ && r@[1].1@ == dec_rep(mid as nat),
        r@[2].0@ == "keyword"@ && r@[2].1@ == keyword@,
{
    let mut r: Vec<(String, String)> = Vec::new();
    r.push(("ps".to_owned(), "2".to_owned()));
    r.push(("mid".to_owned(), u64_to_string(mid)));
    r.push(("keyword".to_owned(), keyword.clone()));
    r
}

} // verus!
