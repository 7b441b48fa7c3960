//! Identifiers: 128-bit UUIDs and their hyphenated text.
//!
//! Reading and writing the text is left to `uuid`; this module states which
//! texts it reads, what it writes, and proves that the two agree.

use uuid::Uuid;
use vstd::prelude::*;

verus! {

/// The sixteen lowercase hexadecimal digits, in order.
pub open spec fn hex_digits() -> Seq<char> {
    seq!['0', '1', '2', '3', '4', '5', '6', '7', '8', '9', 'a', 'b', 'c', 'd', 'e', 'f']
}

/// Whether `c` is a hexadecimal digit, in either case.
pub open spec fn is_hex_digit(c: char) -> bool {
    ('0' <= c && c <= '9') || ('a' <= c && c <= 'f') || ('A' <= c && c <= 'F')
}

/// The value of a hexadecimal digit, in either case.
pub open spec fn hex_value(c: char) -> int {
    if '0' <= c && c <= '9' {
        c as int - '0' as int
    } else if 'a' <= c && c <= 'f' {
        c as int - 'a' as int + 10
    } else {
        c as int - 'A' as int + 10
    }
}

/// The byte that two hexadecimal digits write, the high half first.
pub open spec fn hex_byte(high: char, low: char) -> u8 {
    (hex_value(high) * 16 + hex_value(low)) as u8
}

/// Whether a hyphen stands at position `at` of a hyphenated UUID.
pub open spec fn is_hyphen_position(at: int) -> bool {
    at == 8 || at == 13 || at == 18 || at == 23
}

/// The number of hyphens that stand before position `at` of a hyphenated
/// UUID.
pub open spec fn hyphens_before(at: int) -> int {
    if at <= 8 {
        0
    } else if at <= 13 {
        1
    } else if at <= 18 {
        2
    } else if at <= 23 {
        3
    } else {
        4
    }
}

/// The position of the `digit`-th hexadecimal digit in a hyphenated UUID,
/// whose groups hold 8, 4, 4, 4 and 12 digits.
pub open spec fn digit_position(digit: int) -> int {
    if digit < 8 {
        digit
    } else if digit < 12 {
        digit + 1
    } else if digit < 16 {
        digit + 2
    } else if digit < 20 {
        digit + 3
    } else {
        digit + 4
    }
}

/// The `digit`-th hexadecimal digit of `bytes`, two to a byte, the high half
/// first, in lower case.
pub open spec fn hex_digit_at(bytes: Seq<u8>, digit: int) -> char {
    let byte = bytes[digit / 2];
    if digit % 2 == 0 {
        hex_digits()[byte as int / 16]
    } else {
        hex_digits()[byte as int % 16]
    }
}

/// The hyphenated text of sixteen bytes: 32 lowercase hexadecimal digits in
/// groups of 8, 4, 4, 4 and 12, with a hyphen between two groups.
pub open spec fn hyphenated_text(bytes: Seq<u8>) -> Seq<char> {
    Seq::new(
        36,
        |at: int|
            if is_hyphen_position(at) {
                '-'
            } else {
                hex_digit_at(bytes, at - hyphens_before(at))
            },
    )
}

/// Whether `text` is 32 hexadecimal digits.
pub open spec fn is_simple(text: Seq<char>) -> bool {
    text.len() == 32 && forall|at: int| 0 <= at < 32 ==> is_hex_digit(#[trigger] text[at])
}

/// Whether `text` is 32 hexadecimal digits in groups of 8, 4, 4, 4 and 12,
/// with a hyphen between two groups.
pub open spec fn is_hyphenated(text: Seq<char>) -> bool {
    text.len() == 36 && forall|at: int|
        0 <= at < 36 ==> if is_hyphen_position(at) {
            #[trigger] text[at] == '-'
        } else {
            is_hex_digit(text[at])
        }
}

/// Whether `text` is a hyphenated UUID behind the prefix `urn:uuid:`.
pub open spec fn is_urn(text: Seq<char>) -> bool {
    text.len() == 45 && text.subrange(0, 9) == "urn:uuid:"@ && is_hyphenated(text.subrange(9, 45))
}

/// The bytes that 32 hexadecimal digits write.
pub open spec fn simple_bytes(text: Seq<char>) -> Seq<u8> {
    Seq::new(16, |index: int| hex_byte(text[2 * index], text[2 * index + 1]))
}

/// The bytes that a hyphenated UUID writes.
pub open spec fn hyphenated_bytes(text: Seq<char>) -> Seq<u8> {
    Seq::new(
        16,
        |index: int|
            hex_byte(text[digit_position(2 * index)], text[digit_position(2 * index + 1)]),
    )
}

/// The bytes of the UUID that `text` writes, in any of the three forms that
/// are read: hyphenated, simple, or hyphenated behind `urn:uuid:`. `None`
/// where `text` has none of these forms.
pub open spec fn uuid_bytes(text: Seq<char>) -> Option<Seq<u8>> {
    if is_hyphenated(text) {
        Some(hyphenated_bytes(text))
    } else if is_simple(text) {
        Some(simple_bytes(text))
    } else if is_urn(text) {
        Some(hyphenated_bytes(text.subrange(9, 45)))
    } else {
        None
    }
}

/// `uuid::parser::ParseError`, the error of `Uuid::parse_str`. Nothing is
/// known of a value of it; it is handed on to be described.
#[verifier::external_type_specification]
#[verifier::external_body]
pub struct ExParseError(uuid::parser::ParseError);

/// Wraps `Uuid::parse_str` and `Uuid::as_bytes`. The parser takes a text in
/// the hyphenated form, in the simple form, or in the hyphenated form behind
/// `urn:uuid:`, with digits of either case, and gives the bytes that the
/// digits write in their order; it refuses every other text.
#[verifier::external_body]
fn parse_uuid(text: &str) -> (parsed: Result<[u8; 16], uuid::parser::ParseError>)
    ensures
        match parsed {
            Ok(bytes) => uuid_bytes(text@) == Some(bytes@),
            Err(_) => uuid_bytes(text@) is None,
        },
{
    Uuid::parse_str(text).map(|id| *id.as_bytes())
}

/// Wraps the `Display` of `uuid::parser::ParseError`: the parser's own account
/// of what it found wrong.
#[verifier::external_body]
fn describe_parse_error(error: &uuid::parser::ParseError) -> (reason: String) {
    format!("{}", error)
}

/// Wraps `Uuid::from_bytes` and the `Display` of `Uuid::to_hyphenated_ref`,
/// which writes the bytes as lowercase hexadecimal digits in the hyphenated
/// form.
#[verifier::external_body]
fn hyphenate(bytes: &[u8; 16]) -> (text: String)
    ensures
        text@ == hyphenated_text(bytes@),
{
    format!("{}", Uuid::from_bytes(*bytes).to_hyphenated_ref())
}

/// Why a text was not read as an identifier.
#[derive(Clone, Debug, PartialEq, Eq)]
pub struct InvalidId {
    /// What the UUID parser found wrong with the text.
    pub reason: String,
}

/// The identifier of an order.
#[derive(Clone, Copy, Debug, PartialEq, Eq, Hash)]
pub struct OrderId(pub [u8; 16]);

/// The identifier of an account.
#[derive(Clone, Copy, Debug, PartialEq, Eq, Hash)]
pub struct AccountId(pub [u8; 16]);

impl View for OrderId {
    type V = Seq<u8>;

    open spec fn view(&self) -> Seq<u8> {
        self.0@
    }
}

impl View for AccountId {
    type V = Seq<u8>;

    open spec fn view(&self) -> Seq<u8> {
        self.0@
    }
}

impl OrderId {
    /// Reads an order identifier from the text of a UUID. It is read exactly
    /// when the text has one of the three forms of [`uuid_bytes`]; any other
    /// text is refused, with the parser's reason.
    pub fn from_str(id: &str) -> (parsed: Result<OrderId, InvalidId>)
        ensures
            parsed is Ok <==> uuid_bytes(id@) is Some,
            match parsed {
                Ok(order_id) => uuid_bytes(id@) == Some(order_id@),
                Err(_) => uuid_bytes(id@) is None,
            },
    {
        match parse_uuid(id) {
            Ok(bytes) => Ok(OrderId(bytes)),
            Err(error) => Err(InvalidId { reason: describe_parse_error(&error) }),
        }
    }

    /// The identifier in the hyphenated form.
    pub fn to_hyphenated(&self) -> (text: String)
        ensures
            text@ == hyphenated_text(self@),
    {
        hyphenate(&self.0)
    }
}

impl AccountId {
    /// The identifier in the hyphenated form.
    pub fn to_hyphenated(&self) -> (text: String)
        ensures
            text@ == hyphenated_text(self@),
    {
        hyphenate(&self.0)
    }
}

/// A hexadecimal digit has the value of its place among the sixteen.
pub proof fn lemma_hex_digit_value(n: int)
    requires
        0 <= n < 16,
    ensures
        is_hex_digit(hex_digits()[n]),
        hex_value(hex_digits()[n]) == n,
{
}

/// Reading what was written gives the identifier back: the hyphenated text of
/// sixteen bytes is read as a UUID, and as those sixteen bytes.
pub proof fn lemma_hyphenated_round_trip(bytes: Seq<u8>)
    requires
        bytes.len() == 16,
    ensures
        is_hyphenated(hyphenated_text(bytes)),
        uuid_bytes(hyphenated_text(bytes)) == Some(bytes),
{
    let text = hyphenated_text(bytes);
    assert forall|at: int| 0 <= at < 36 implies if is_hyphen_position(at) {
        #[trigger] text[at] == '-'
    } else {
        is_hex_digit(text[at])
    } by {
        if !is_hyphen_position(at) {
            let byte = bytes[(at - hyphens_before(at)) / 2];
            lemma_hex_digit_value(byte as int / 16);
            lemma_hex_digit_value(byte as int % 16);
        }
    }
    let read = hyphenated_bytes(text);
    assert forall|index: int| 0 <= index < 16 implies #[trigger] read[index] == bytes[index] by {
        let byte = bytes[index];
        assert(text[digit_position(2 * index)] == hex_digit_at(bytes, 2 * index));
        assert(text[digit_position(2 * index + 1)] == hex_digit_at(bytes, 2 * index + 1));
        lemma_hex_digit_value(byte as int / 16);
        lemma_hex_digit_value(byte as int % 16);
    }
    assert(read =~= bytes);
}

/// An order identifier that is written in the hyphenated form and read again
/// is the identifier that was written.
pub proof fn lemma_order_id_round_trip(id: OrderId)
    ensures
        uuid_bytes(hyphenated_text(id@)) == Some(id@),
{
    lemma_hyphenated_round_trip(id@);
}

} // verus!
