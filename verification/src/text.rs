//! Building blocks of the texts that the model prints: decimal numerals,
//! quoted text, and the `Name(fields)` shape of a tuple variant.

use vstd::prelude::*;
use vstd::string::StringExecFns;

verus! {

/// The character of the decimal digit `d`.
pub open spec fn digit(d: nat) -> char
    recommends
        d < 10,
{
    seq!['0', '1', '2', '3', '4', '5', '6', '7', '8', '9'][d as int]
}

/// The decimal numeral of `n`: its digits from the most significant one down,
/// without leading zeros.
pub open spec fn decimal(n: nat) -> Seq<char>
    decreases n,
{
    if n < 10 {
        seq![digit(n)]
    } else {
        decimal(n / 10).push(digit(n % 10))
    }
}

/// The decimal numeral of an integer: a minus sign before the numeral of its
/// magnitude where it is negative.
pub open spec fn signed_decimal(i: int) -> Seq<char> {
    if i < 0 {
        seq!['-'] + decimal((-i) as nat)
    } else {
        decimal(i as nat)
    }
}

/// A tuple variant as text: the variant's name, then its fields in round
/// brackets.
pub open spec fn tuple_variant_text(name: Seq<char>, fields: Seq<char>) -> Seq<char> {
    name + seq!['('] + fields + seq![')']
}

/// What [`core::fmt::Debug`] prints for text: the text in double quotes, with
/// the characters that cannot stand for themselves there written as escapes.
pub uninterp spec fn debug_quoted(text: Seq<char>) -> Seq<char>;

/// The one-character text of a decimal digit.
fn digit_str(d: usize) -> (numeral: &'static str)
    requires
        d < 10,
    ensures
        numeral@ == seq![digit(d as nat)],
{
    proof {
        reveal_strlit("0");
        reveal_strlit("1");
        reveal_strlit("2");
        reveal_strlit("3");
        reveal_strlit("4");
        reveal_strlit("5");
        reveal_strlit("6");
        reveal_strlit("7");
        reveal_strlit("8");
        reveal_strlit("9");
    }
    let numeral = match d {
        0 => "0",
        1 => "1",
        2 => "2",
        3 => "3",
        4 => "4",
        5 => "5",
        6 => "6",
        7 => "7",
        8 => "8",
        _ => "9",
    };
    assert(numeral@ =~= seq![digit(d as nat)]);
    numeral
}

/// Appends the decimal numeral of `n` to `out`.
pub fn push_decimal(out: &mut String, n: usize)
    ensures
        final(out)@ == old(out)@ + decimal(n as nat),
    decreases n,
{
    if n >= 10 {
        push_decimal(out, n / 10);
    }
    out.append(digit_str(n % 10));
}

/// Appends the decimal numeral of `i` to `out`, with a minus sign first where
/// `i` is negative.
pub fn push_signed_decimal(out: &mut String, i: isize)
    ensures
        final(out)@ == old(out)@ + signed_decimal(i as int),
{
    if i < 0 {
        proof {
            reveal_strlit("-");
        }
        out.append("-");
        // `-i` does not fit where `i` is the least value, `-(i + 1)` always does.
        let below: usize = (-(i + 1)) as usize;
        push_decimal(out, below + 1);
    } else {
        push_decimal(out, i as usize);
    }
}

/// The text of a tuple variant called `name` whose fields print as `fields`.
pub fn tuple_variant(name: &str, fields: &str) -> (text: String)
    ensures
        text@ == tuple_variant_text(name@, fields@),
{
    proof {
        reveal_strlit("(");
        reveal_strlit(")");
    }
    let mut text = name.to_owned();
    text.append("(");
    text.append(fields);
    text.append(")");
    text
}

/// Quotes `text` as [`core::fmt::Debug`] does for `str`, by formatting it with
/// `{:?}`. This is the one function whose contract is taken on trust: its body
/// is not verified. The contract gives the result its name, [`debug_quoted`],
/// and thereby claims that it depends on the characters of `text` alone; it
/// says nothing of which characters are escaped or how.
#[verifier::external_body]
pub(crate) fn quote(text: &str) -> (quoted: String)
    ensures
        quoted@ == debug_quoted(text@),
{
    format!("{:?}", text)
}

} // verus!
