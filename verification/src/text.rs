//! Text helpers: prefixes and decimal numbers.

use vstd::prelude::*;

verus! {

/// The text of one decimal digit.
pub open spec fn digit_char(d: int) -> char {
    (48 + d) as u8 as char
}

/// The decimal notation of `n`, without leading zeros.
pub open spec fn decimal(n: nat) -> Seq<char>
    decreases n,
{
    if n < 10 {
        seq![digit_char(n as int)]
    } else {
        decimal(n / 10).push(digit_char((n % 10) as int))
    }
}

/// What is left of `s` behind `prefix`, if `s` starts with it.
pub open spec fn without_prefix(s: Seq<char>, prefix: Seq<char>) -> Option<Seq<char>> {
    if prefix.len() <= s.len() && s.take(prefix.len() as int) == prefix {
        Some(s.skip(prefix.len() as int))
    } else {
        None
    }
}

/// The text of one decimal digit, as a string.
fn digit_str(d: usize) -> (r: &'static str)
    requires
        d < 10,
    ensures
        r@ == seq![digit_char(d as int)],
{
    proof {
        reveal_strlit("0");
        reveal_strlit("1");
        reveal_strlit("2");
        reveal_strlit("3");
        reveal_strlit("4");
        reveal_strlit("5");
        reveal_strlit("6");
        reveal_strlit("7");
        reveal_strlit("8");
        reveal_strlit("9");
    }
    match d {
        0 => "0",
        1 => "1",
        2 => "2",
        3 => "3",
        4 => "4",
        5 => "5",
        6 => "6",
        7 => "7",
        8 => "8",
        _ => "9",
    }
}

/// Writes `n` in decimal.
pub fn decimal_text(n: usize) -> (r: String)
    ensures
        r@ == decimal(n as nat),
    decreases n,
{
    if n < 10 {
        digit_str(n).to_owned()
    } else {
        let mut text = decimal_text(n / 10);
        text.append(digit_str(n % 10));
        text
    }
}

/// Cuts `prefix` off `s`, if `s` starts with it.
pub fn strip_prefix<'a>(s: &'a str, prefix: &str) -> (r: Option<&'a str>)
    ensures
        r is Some <==> without_prefix(s@, prefix@) is Some,
        r matches Some(rest) ==> without_prefix(s@, prefix@) == Some(rest@),
{
    let s_len = s.unicode_len();
    let prefix_len = prefix.unicode_len();
    if prefix_len > s_len {
        return None;
    }
    let mut i: usize = 0;
    while i < prefix_len
        invariant
            i <= prefix_len,
            prefix_len <= s_len,
            s_len == s@.len(),
            prefix_len == prefix@.len(),
            forall|j: int| 0 <= j < i ==> s@[j] == prefix@[j],
        decreases prefix_len - i,
    {
        if s.get_char(i) != prefix.get_char(i) {
            assert(s@.take(prefix_len as int)[i as int] != prefix@[i as int]);
            return None;
        }
        i += 1;
    }
    assert(s@.take(prefix_len as int) =~= prefix@);
    assert(s@.subrange(prefix_len as int, s_len as int) =~= s@.skip(prefix_len as int));
    Some(s.substring_char(prefix_len, s_len))
}

/// Joins two texts.
pub fn joined(a: &str, b: &str) -> (r: String)
    ensures
        r@ == a@ + b@,
{
    let mut text = a.to_owned();
    text.append(b);
    text
}

/// The decimal notation of a number ends in its last digit, and what stands before is the notation
/// of the rest, where there is one.
pub proof fn law_decimal_digits(n: usize, text: String, rest: String)
    requires
        call_ensures(decimal_text, (n,), text),
        call_ensures(decimal_text, ((n / 10) as usize,), rest),
    ensures
        text@.len() > 0,
        text@.last() == "0123456789"@[n as int % 10],
        n < 10 ==> text@.len() == 1,
        n >= 10 ==> text@.drop_last() == rest@,
{
    reveal_strlit("0123456789");
    let d = n as int % 10;
    assert(d == 0 || d == 1 || d == 2 || d == 3 || d == 4 || d == 5 || d == 6 || d == 7 || d == 8
        || d == 9);
    if n >= 10 {
        assert(text@.drop_last() =~= rest@);
    }
}

/// Cutting a prefix off gives exactly the text that it was put in front of, and a text that has no
/// such rest is left alone.
pub proof fn law_prefix_cut(s: &str, prefix: &str, r: Option<&str>, rest: Seq<char>)
    requires
        call_ensures(strip_prefix, (s, prefix), r),
    ensures
        s@ == prefix@ + rest ==> r is Some && r->0@ == rest,
        r is Some ==> s@ == prefix@ + r->0@,
{
    if s@ == prefix@ + rest {
        assert(s@.take(prefix@.len() as int) =~= prefix@);
        assert(s@.skip(prefix@.len() as int) =~= rest);
    }
    if r is Some {
        assert(s@ =~= prefix@ + s@.skip(prefix@.len() as int));
    }
}

} // verus!
