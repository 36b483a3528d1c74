use crate::rules::{digits, lemma_digits_are_decimal, mentions};
use vstd::prelude::*;

verus! {

/// The character that writes the decimal digit `d`.
pub open spec fn digit_char(d: nat) -> char {
    seq!['0', '1', '2', '3', '4', '5', '6', '7', '8', '9'][d as int]
}

/// The decimal text of an integer: its digits, most significant first, after
/// a minus sign when it is negative.
pub open spec fn decimal_text(n: int) -> Seq<char> {
    if n < 0 {
        seq!['-'] + digits((-n) as nat).map_values(|d: nat| digit_char(d))
    } else {
        digits(n as nat).map_values(|d: nat| digit_char(d))
    }
}

/// Writes `n` in decimal.
///
/// Trusted: this is `ToString::to_string` on an `i32`, which formats the
/// number through `Display`. The contract claims that the text is the
/// decimal digits of the number without leading zeros, with a leading `-`
/// for a negative number.
#[verifier::external_body]
pub(crate) fn to_decimal(n: i32) -> (text: String)
    ensures
        text@ == decimal_text(n as int),
{
    n.to_string()
}

/// Tells whether `c` occurs in `text`.
///
/// Trusted: this is `str::contains` with a `char` as the pattern, which
/// is true exactly when some character of the string equals `c`.
#[verifier::external_body]
pub(crate) fn has_char(text: &str, c: char) -> (found: bool)
    ensures
        found == text@.contains(c),
{
    text.contains(c)
}

/// In the text of a non-negative number, a digit's character occurs exactly
/// when the digit occurs in the number.
pub proof fn lemma_text_mentions(n: nat, d: nat)
    requires
        d < 10,
    ensures
        decimal_text(n as int).contains(digit_char(d)) <==> mentions(n, d),
{
    let ds = digits(n);
    let text = decimal_text(n as int);
    lemma_digits_are_decimal(n);
    assert(text.len() == ds.len());
    assert forall|i: int| 0 <= i < ds.len() implies (#[trigger] text[i] == digit_char(d) <==> ds[i]
        == d) by {
        assert(ds[i] < 10);
        assert(text[i] == digit_char(ds[i]));
    }
    if text.contains(digit_char(d)) {
        let i = choose|i: int| 0 <= i < text.len() && text[i] == digit_char(d);
        assert(ds[i] == d);
    }
    if ds.contains(d) {
        let i = choose|i: int| 0 <= i < ds.len() && ds[i] == d;
        assert(text[i] == digit_char(d));
    }
}

} // verus!
