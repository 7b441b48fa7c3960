//! Exact numbers for prices, quantities and balances.
//!
//! A [`Decimal`] is a fraction of two integers of any size, each kept as its
//! decimal literal. Turning one into text is left to `num_decimal`, which
//! rounds half to even; this module checks the literals and states what is
//! handed to it.

use num_decimal::Num;
use std::str::FromStr;
use vstd::prelude::*;

verus! {

/// Whether `c` is one of the ten decimal digits.
pub open spec fn is_digit(c: char) -> bool {
    '0' <= c && c <= '9'
}

/// Whether every character of `s` is a decimal digit.
pub open spec fn all_digits(s: Seq<char>) -> bool {
    forall|i: int| 0 <= i < s.len() ==> is_digit(#[trigger] s[i])
}

/// The number that a run of decimal digits writes; 0 for the empty run.
pub open spec fn digits_value(s: Seq<char>) -> nat
    decreases s.len(),
{
    if s.len() == 0 {
        0
    } else {
        (digits_value(s.drop_last()) * 10 + (s.last() as int - '0' as int)) as nat
    }
}

/// Whether `s` has a leading minus sign.
pub open spec fn is_negated(s: Seq<char>) -> bool {
    s.len() > 0 && s[0] == '-'
}

/// Whether `s` is an integer literal: one or more decimal digits, with at most
/// one minus sign in front of them.
pub open spec fn is_integer_literal(s: Seq<char>) -> bool {
    if is_negated(s) {
        s.len() > 1 && all_digits(s.skip(1))
    } else {
        s.len() > 0 && all_digits(s)
    }
}

/// The integer that an integer literal writes.
pub open spec fn literal_value(s: Seq<char>) -> int {
    if is_negated(s) {
        -(digits_value(s.skip(1)) as int)
    } else {
        digits_value(s) as int
    }
}

/// A fraction of two integers, the second of which is not zero in any
/// [`Decimal`].
pub struct Fraction {
    pub numer: int,
    pub denom: int,
}

/// The text that `num_decimal::Num` displays for the fraction `numer / denom`,
/// where `denom` is not zero, without a precision (`None`) or with a fixed
/// number of fractional digits.
pub uninterp spec fn fraction_text(numer: int, denom: int, precision: Option<nat>) -> Seq<char>;

/// The text of a fraction with as many fractional digits as it needs, up to
/// the limit that `num_decimal` sets.
pub open spec fn plain_text(value: Fraction) -> Seq<char> {
    fraction_text(value.numer, value.denom, None)
}

/// The text of a fraction rounded to a whole number.
pub open spec fn whole_text(value: Fraction) -> Seq<char> {
    fraction_text(value.numer, value.denom, Some(0nat))
}

/// A run of digits writes zero exactly when each of them is `'0'`.
pub proof fn lemma_digits_zero(s: Seq<char>)
    requires
        all_digits(s),
    ensures
        digits_value(s) == 0 <==> (forall|i: int| 0 <= i < s.len() ==> s[i] == '0'),
    decreases s.len(),
{
    if s.len() > 0 {
        let front = s.drop_last();
        assert(all_digits(front)) by {
            assert forall|i: int| 0 <= i < front.len() implies is_digit(#[trigger] front[i]) by {
                assert(front[i] == s[i]);
            }
        }
        lemma_digits_zero(front);
        assert(is_digit(s[s.len() - 1]));
        if digits_value(s) == 0 {
            assert(digits_value(front) == 0);
            assert(s.last() == '0');
            assert forall|i: int| 0 <= i < s.len() implies s[i] == '0' by {
                if i < s.len() - 1 {
                    assert(front[i] == s[i]);
                }
            }
        }
        if forall|i: int| 0 <= i < s.len() ==> s[i] == '0' {
            assert forall|i: int| 0 <= i < front.len() implies front[i] == '0' by {
                assert(front[i] == s[i]);
            }
            assert(s.last() == '0');
        }
    }
}

/// An exact number: the fraction of two integers, each of any size.
#[derive(Debug)]
pub struct Decimal {
    numer: String,
    denom: String,
}

impl View for Decimal {
    type V = Fraction;

    closed spec fn view(&self) -> Fraction {
        Fraction { numer: literal_value(self.numer@), denom: literal_value(self.denom@) }
    }
}

/// Whether the characters of `text` from `start` on are decimal digits.
fn digits_from(text: &str, start: usize) -> (ok: bool)
    requires
        start <= text@.len(),
    ensures
        ok == all_digits(text@.skip(start as int)),
{
    let len: usize = text.unicode_len();
    let mut at: usize = start;
    while at < len
        invariant
            start <= at <= len,
            len == text@.len(),
            forall|i: int| start <= i < at ==> is_digit(#[trigger] text@[i]),
        decreases len - at,
    {
        let c: char = text.get_char(at);
        if !('0' <= c && c <= '9') {
            assert(!is_digit(text@.skip(start as int)[at - start]));
            return false;
        }
        at = at + 1;
    }
    true
}

/// Whether `text` is an integer literal.
pub fn is_integer(text: &str) -> (ok: bool)
    ensures
        ok == is_integer_literal(text@),
{
    let len: usize = text.unicode_len();
    if len == 0 {
        return false;
    }
    if text.get_char(0) == '-' {
        len > 1 && digits_from(text, 1)
    } else {
        let ok = digits_from(text, 0);
        assert(text@.skip(0) == text@);
        ok
    }
}

/// Whether the integer literal `text` writes zero.
pub fn is_zero(text: &str) -> (zero: bool)
    requires
        is_integer_literal(text@),
    ensures
        zero == (literal_value(text@) == 0),
{
    let len: usize = text.unicode_len();
    let start: usize = if text.get_char(0) == '-' { 1 } else { 0 };
    let ghost digits = text@.skip(start as int);
    proof {
        assert(text@.skip(0) == text@);
        lemma_digits_zero(digits);
    }
    let mut at: usize = start;
    while at < len
        invariant
            start <= at <= len,
            len == text@.len(),
            digits == text@.skip(start as int),
            (literal_value(text@) == 0) == (forall|i: int| 0 <= i < digits.len() ==> digits[i] == '0'),
            forall|i: int| 0 <= i < at - start ==> digits[i] == '0',
        decreases len - at,
    {
        if text.get_char(at) != '0' {
            assert(digits[at - start] != '0');
            return false;
        }
        at = at + 1;
    }
    true
}

/// Wraps `Num::from_str`, the division of two `Num`s and `Num`'s `Display`
/// without a precision. Both literals parse to the integers that they write,
/// since each is an integer literal, and the division is defined, since the
/// second is not zero. The text is the one that `num_decimal` displays for
/// the fraction of the two integers; it depends on the integers alone, not on
/// how they are written.
#[verifier::external_body]
fn display_fraction(numer: &str, denom: &str) -> (text: String)
    requires
        is_integer_literal(numer@),
        is_integer_literal(denom@),
        literal_value(denom@) != 0,
    ensures
        text@ == fraction_text(literal_value(numer@), literal_value(denom@), None),
{
    let n = Num::from_str(numer).unwrap();
    let d = Num::from_str(denom).unwrap();
    format!("{}", n / d)
}

/// Wraps `Num::from_str`, the division of two `Num`s and `Num`'s `Display`
/// with the precision 0, which rounds to a whole number, half to even. The
/// text is the one that `num_decimal` displays for the fraction of the two
/// integers at that precision; it depends on the integers alone, not on how
/// they are written.
#[verifier::external_body]
fn display_fraction_whole(numer: &str, denom: &str) -> (text: String)
    requires
        is_integer_literal(numer@),
        is_integer_literal(denom@),
        literal_value(denom@) != 0,
    ensures
        text@ == fraction_text(literal_value(numer@), literal_value(denom@), Some(0nat)),
{
    let n = Num::from_str(numer).unwrap();
    let d = Num::from_str(denom).unwrap();
    format!("{:.0}", n / d)
}

impl Decimal {
    #[verifier::type_invariant]
    spec fn well_formed(self) -> bool {
        &&& is_integer_literal(self.numer@)
        &&& is_integer_literal(self.denom@)
        &&& literal_value(self.denom@) != 0
    }

    /// The number `numer / denom`, where both are integer literals and `denom`
    /// does not write zero; `None` for any other pair of texts.
    pub fn from_fraction(numer: &str, denom: &str) -> (made: Option<Decimal>)
        ensures
            made is Some <==> is_integer_literal(numer@) && is_integer_literal(denom@)
                && literal_value(denom@) != 0,
            made matches Some(d) ==> d@ == (Fraction {
                numer: literal_value(numer@),
                denom: literal_value(denom@),
            }),
    {
        if !is_integer(numer) || !is_integer(denom) {
            return None;
        }
        if is_zero(denom) {
            return None;
        }
        Some(Decimal { numer: numer.to_owned(), denom: denom.to_owned() })
    }

    /// The numerator, as the literal that was given.
    pub fn numerator(&self) -> (text: &str)
        ensures
            is_integer_literal(text@),
            literal_value(text@) == self@.numer,
    {
        proof {
            use_type_invariant(self);
        }
        self.numer.as_str()
    }

    /// The denominator, as the literal that was given.
    pub fn denominator(&self) -> (text: &str)
        ensures
            is_integer_literal(text@),
            literal_value(text@) == self@.denom,
            self@.denom != 0,
    {
        proof {
            use_type_invariant(self);
        }
        self.denom.as_str()
    }

    /// The number as text, with as many fractional digits as it needs.
    pub fn to_text(&self) -> (text: String)
        ensures
            text@ == plain_text(self@),
    {
        proof {
            use_type_invariant(self);
        }
        display_fraction(self.numer.as_str(), self.denom.as_str())
    }
}

impl Clone for Decimal {
    fn clone(&self) -> (copy: Decimal)
        ensures
            copy == *self,
    {
        proof {
            use_type_invariant(self);
        }
        Decimal { numer: self.numer.clone(), denom: self.denom.clone() }
    }
}

/// Format a quantity: the number rounded to a whole number.
pub fn format_quantity(quantity: &Decimal) -> (text: String)
    ensures
        text@ == whole_text(quantity@),
{
    proof {
        use_type_invariant(quantity);
    }
    display_fraction_whole(quantity.numer.as_str(), quantity.denom.as_str())
}

} // verus!
