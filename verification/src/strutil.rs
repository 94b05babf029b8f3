//! Small verified string helpers: ASCII case mapping, decimal rendering of
//! integers, and joining a list of pieces with a separator.
use vstd::prelude::*;

verus! {

/// The ASCII-lowercased form of one character; anything outside `A`..`Z`
/// is left as it is.
pub open spec fn to_lower_char(c: char) -> char {
    if 'A' <= c && c <= 'Z' {
        (((c as u8) + 32) as char)
    } else {
        c
    }
}

/// The ASCII-uppercased form of one character; anything outside `a`..`z`
/// is left as it is.
pub open spec fn to_upper_char(c: char) -> char {
    if 'a' <= c && c <= 'z' {
        (((c as u8) - 32) as char)
    } else {
        c
    }
}

/// A string, ASCII-lowercased character by character.
pub open spec fn to_lower(s: Seq<char>) -> Seq<char> {
    s.map_values(|c: char| to_lower_char(c))
}

/// A string, ASCII-uppercased character by character.
pub open spec fn to_upper(s: Seq<char>) -> Seq<char> {
    s.map_values(|c: char| to_upper_char(c))
}

/// Relies on `String::push` of std: appends the given character to the end
/// of the string.
#[verifier::external_body]
pub(crate) fn push_char(s: &mut String, c: char)
    ensures
        final(s)@ == old(s)@.push(c),
{
    s.push(c);
}

/// ASCII-lowercases a string.
pub fn ascii_lower(s: &str) -> (r: String)
    ensures
        r@ == to_lower(s@),
{
    let n = s.unicode_len();
    let mut r = String::new();
    let mut i: usize = 0;
    while i < n
        invariant
            i <= n,
            n == s@.len(),
            r@ == to_lower(s@.take(i as int)),
        decreases n - i,
    {
        let c = s.get_char(i);
        let lc = if 'A' <= c && c <= 'Z' {
            ((c as u8) + 32) as char
        } else {
            c
        };
        assert(lc == to_lower_char(s@[i as int]));
        push_char(&mut r, lc);
        assert(s@.take(i + 1 as int).drop_last() =~= s@.take(i as int));
        assert(r@ =~= to_lower(s@.take(i + 1 as int)));
        i += 1;
    }
    assert(s@.take(n as int) =~= s@);
    r
}

/// ASCII-uppercases a string.
pub fn ascii_upper(s: &str) -> (r: String)
    ensures
        r@ == to_upper(s@),
{
    let n = s.unicode_len();
    let mut r = String::new();
    let mut i: usize = 0;
    while i < n
        invariant
            i <= n,
            n == s@.len(),
            r@ == to_upper(s@.take(i as int)),
        decreases n - i,
    {
        let c = s.get_char(i);
        let uc = if 'a' <= c && c <= 'z' {
            ((c as u8) - 32) as char
        } else {
            c
        };
        assert(uc == to_upper_char(s@[i as int]));
        push_char(&mut r, uc);
        assert(s@.take(i + 1 as int).drop_last() =~= s@.take(i as int));
        assert(r@ =~= to_upper(s@.take(i + 1 as int)));
        i += 1;
    }
    assert(s@.take(n as int) =~= s@);
    r
}

/// The digit character for one decimal digit.
pub open spec fn digit_char(d: int) -> char
    recommends
        0 <= d < 10,
{
    ((48 + d) as u8) as char
}

/// The decimal digits of a natural number, most significant first.
pub open spec fn dec_rep(n: nat) -> Seq<char>
    decreases n,
{
    if n < 10 {
        seq![digit_char(n as int)]
    } else {
        dec_rep(n / 10).push(digit_char((n % 10) as int))
    }
}

/// The decimal rendering of an integer: a minus sign before the digits of
/// the magnitude when it is negative.
pub open spec fn int_rep(i: int) -> Seq<char> {
    if i >= 0 {
        dec_rep(i as nat)
    } else {
        seq!['-'] + dec_rep((-i) as nat)
    }
}

/// Renders a natural number in decimal.
pub fn u64_to_string(n: u64) -> (r: String)
    ensures
        r@ == dec_rep(n as nat),
    decreases n,
{
    if n < 10 {
        let mut r = String::new();
        push_char(&mut r, (48 + (n as u8)) as char);
        assert(r@ =~= dec_rep(n as nat));
        r
    } else {
        let mut r = u64_to_string(n / 10);
        push_char(&mut r, (48 + ((n % 10) as u8)) as char);
        r
    }
}

/// Renders a signed integer in decimal, with a leading minus sign when it
/// is negative.
pub fn i64_to_string(i: i64) -> (r: String)
    ensures
        r@ == int_rep(i as int),
{
    if i >= 0 {
        u64_to_string(i as u64)
    } else {
        let wide: i128 = i as i128;
        assert(0 < -wide <= u64::MAX);
        let mag: u64 = (-wide) as u64;
        let mut r = String::new();
        push_char(&mut r, '-');
        let digits = u64_to_string(mag);
        r.append(digits.as_str());
        assert(r@ =~= int_rep(i as int));
        r
    }
}

/// The pieces joined with the separator between each neighbouring pair.
pub open spec fn join_seqs(parts: Seq<Seq<char>>, sep: Seq<char>) -> Seq<char>
    decreases parts.len(),
{
    if parts.len() == 0 {
        Seq::empty()
    } else if parts.len() == 1 {
        parts[0]
    } else {
        join_seqs(parts.drop_last(), sep) + sep + parts.last()
    }
}

/// The views of a list of strings.
pub open spec fn seq_views(v: Seq<String>) -> Seq<Seq<char>> {
    v.map_values(|s: String| s@)
}

/// The views of a pushed list are the views of the list with the view of
/// the new element pushed.
pub proof fn lemma_seq_views_push(v: Seq<String>, x: String)
    ensures
        seq_views(v.push(x)) == seq_views(v).push(x@),
{
    assert(seq_views(v.push(x)) =~= seq_views(v).push(x@));
}

/// Joins the parts with the separator between each neighbouring pair.
pub fn join(parts: &Vec<String>, sep: &str) -> (r: String)
    ensures
        r@ == join_seqs(seq_views(parts@), sep@),
{
    let mut r = String::new();
    let mut i: usize = 0;
    while i < parts.len()
        invariant
            i <= parts@.len(),
            r@ == join_seqs(seq_views(parts@).take(i as int), sep@),
        decreases parts@.len() - i,
    {
        if i > 0 {
            r.append(sep);
        }
        let ghost vs = seq_views(parts@);
        r.append(parts[i].as_str());
        proof {
            assert(vs.take(i + 1 as int).drop_last() =~= vs.take(i as int));
            assert(r@ =~= join_seqs(vs.take(i + 1 as int), sep@));
        }
        i += 1;
    }
    proof {
        assert(seq_views(parts@).take(parts@.len() as int) =~= seq_views(parts@));
    }
    r
}

} // verus!
