//! Small helpers on strings, stated over their views as sequences of
//! characters.

use vstd::prelude::*;
use vstd::string::*;

verus! {

/// Whether two string slices consist of the same characters.
pub fn str_eq(a: &str, b: &str) -> (same: bool)
    ensures
        same == (a@ == b@),
{
    a.to_owned() == b.to_owned()
}

/// An owned copy of a string slice.
pub fn owned(s: &str) -> (copy: String)
    ensures
        copy@ == s@,
{
    s.to_owned()
}

/// `a` followed by `b`.
pub fn join2(a: &str, b: &str) -> (text: String)
    ensures
        text@ == a@ + b@,
{
    let mut text = a.to_owned();
    text.append(b);
    text
}

/// `a`, `b` and `c` in a row.
pub fn join3(a: &str, b: &str, c: &str) -> (text: String)
    ensures
        text@ == a@ + b@ + c@,
{
    let mut text = join2(a, b);
    text.append(c);
    text
}

/// `a`, `b`, `c`, `d` and `e` in a row.
pub fn join5(a: &str, b: &str, c: &str, d: &str, e: &str) -> (text: String)
    ensures
        text@ == a@ + b@ + c@ + d@ + e@,
{
    let mut text = join3(a, b, c);
    text.append(d);
    text.append(e);
    text
}

/// The part of `text` that begins at `from` and is `len` characters long.
pub open spec fn window(text: Seq<char>, from: int, len: int) -> Seq<char> {
    text.subrange(from, from + len)
}

/// `needle` occurs somewhere in `haystack`.
pub open spec fn occurs_in(needle: Seq<char>, haystack: Seq<char>) -> bool {
    exists|i: int|
        0 <= i && i + needle.len() <= haystack.len() && #[trigger] window(
            haystack,
            i,
            needle.len() as int,
        ) == needle
}

/// `text` in upper case, as Unicode defines it.
pub uninterp spec fn uppercased(text: Seq<char>) -> Seq<char>;

/// Whether `needle` occurs somewhere in `haystack`.
///
/// Trusted: wraps `str::contains` of the standard library with a string as
/// the pattern, which holds exactly when the pattern matches a part of the
/// string.
#[verifier::external_body]
pub(crate) fn str_contains(haystack: &str, needle: &str) -> (found: bool)
    ensures
        found == occurs_in(needle@, haystack@),
{
    haystack.contains(needle)
}

/// `text` in upper case.
///
/// Trusted: wraps `str::to_uppercase` of the standard library. The contract
/// names the result and says nothing else about it.
#[verifier::external_body]
pub(crate) fn to_uppercase(text: &str) -> (upper: String)
    ensures
        upper@ == uppercased(text@),
{
    text.to_uppercase()
}

/// The digit `d` as a character.
pub open spec fn digit(d: int) -> char
    recommends
        0 <= d < 10,
{
    "0123456789"@[d]
}

/// The natural number `n` in decimal digits, without leading zeros.
pub open spec fn natural_text(n: nat) -> Seq<char>
    decreases n,
{
    if n < 10 {
        seq![digit(n as int)]
    } else {
        natural_text(n / 10).push(digit((n % 10) as int))
    }
}

/// The integer `n` in decimal digits, with a minus sign where it is
/// negative.
pub open spec fn decimal_text(n: int) -> Seq<char> {
    if n < 0 {
        seq!['-'] + natural_text((-n) as nat)
    } else {
        natural_text(n as nat)
    }
}

/// The digit `d` as text.
fn digit_text(d: u64) -> (text: &'static str)
    requires
        d < 10,
    ensures
        text@ == seq![digit(d as int)],
{
    proof {
        reveal_strlit("0123456789");
        reveal_strlit("0");
        reveal_strlit("1");
        reveal_strlit("2");
        reveal_strlit("3");
        reveal_strlit("4");
        reveal_strlit("5");
        reveal_strlit("6");
        reveal_strlit("7");
        reveal_strlit("8");
        reveal_strlit("9");
    }
    let text = match d {
        0 => "0",
        1 => "1",
        2 => "2",
        3 => "3",
        4 => "4",
        5 => "5",
        6 => "6",
        7 => "7",
        8 => "8",
        _ => "9",
    };
    assert(text@ =~= seq![digit(d as int)]);
    text
}

/// `n` written as a decimal number.
pub fn decimal_unsigned(n: u64) -> (text: String)
    ensures
        text@ == natural_text(n as nat),
{
    let mut rest: u64 = n / 10;
    let mut text = owned(digit_text(n % 10));
    proof {
        if n >= 10 {
            assert(natural_text((n / 10) as nat).push(digit((n % 10) as int)) =~= natural_text(
                (n / 10) as nat,
            ) + text@);
        }
    }
    while rest > 0
        invariant
            natural_text(n as nat) == if rest == 0 {
                text@
            } else {
                natural_text(rest as nat) + text@
            },
        decreases rest,
    {
        let ghost before = text@;
        let head = digit_text(rest % 10);
        text = join2(head, text.as_str());
        proof {
            if rest >= 10 {
                assert(natural_text((rest / 10) as nat).push(digit((rest % 10) as int)) + before
                    =~= natural_text((rest / 10) as nat) + text@);
            }
        }
        rest = rest / 10;
    }
    text
}

/// `n` written as a decimal number.
pub fn decimal(n: i64) -> (text: String)
    ensures
        text@ == decimal_text(n as int),
{
    if n < 0 {
        let magnitude: u64 = if n == i64::MIN {
            9_223_372_036_854_775_808
        } else {
            (-n) as u64
        };
        let digits = decimal_unsigned(magnitude);
        proof {
            reveal_strlit("-");
            assert("-"@ =~= seq!['-']);
        }
        join2("-", digits.as_str())
    } else {
        decimal_unsigned(n as u64)
    }
}

/// Filtering a sequence that was extended by one element: the element is
/// kept at the end where it passes, and dropped where it does not.
pub proof fn lemma_filter_push<A>(s: Seq<A>, e: A, pred: spec_fn(A) -> bool)
    ensures
        s.push(e).filter(pred) == if pred(e) {
            s.filter(pred).push(e)
        } else {
            s.filter(pred)
        },
{
    reveal(Seq::filter);
    assert(s.push(e).drop_last() =~= s);
}

/// Nothing passes a filter on the empty sequence.
pub proof fn lemma_filter_empty<A>(pred: spec_fn(A) -> bool)
    ensures
        Seq::<A>::empty().filter(pred) == Seq::<A>::empty(),
{
    reveal(Seq::filter);
}

} // verus!
