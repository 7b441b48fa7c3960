//! Text helpers: padding to a column width and the byte-wise order of strings.

use vstd::prelude::*;
use vstd::string::StringSliceAdditionalSpecFns;
use vstd::utf8::{encode_scalar, encode_utf8, encode_utf8_decode_utf8};

verus! {

/// A run of `n` blanks.
pub open spec fn blanks(n: nat) -> Seq<char> {
    Seq::new(n, |i: int| ' ')
}

/// `text` right-aligned in a field of `width` characters: blanks are put in
/// front of it until it is `width` characters long; a longer text is kept whole.
pub open spec fn right_aligned(text: Seq<char>, width: nat) -> Seq<char> {
    if text.len() >= width {
        text
    } else {
        blanks((width - text.len()) as nat) + text
    }
}

/// `text` left-aligned in a field of `width` characters: blanks are put
/// behind it until it is `width` characters long; a longer text is kept whole.
pub open spec fn left_aligned(text: Seq<char>, width: nat) -> Seq<char> {
    if text.len() >= width {
        text
    } else {
        text + blanks((width - text.len()) as nat)
    }
}

/// Appends `count` blanks to `out`.
pub fn push_blanks(out: &mut String, count: usize)
    ensures
        final(out)@ == old(out)@ + blanks(count as nat),
{
    let mut done: usize = 0;
    proof {
        reveal_strlit(" ");
    }
    while done < count
        invariant
            done <= count,
            out@ == old(out)@ + blanks(done as nat),
            " "@ == seq![' '],
        decreases count - done,
    {
        out.append(" ");
        done = done + 1;
    }
}

/// Right-aligns `text` in a field of `width` characters.
pub fn align_right(text: &str, width: usize) -> (out: String)
    ensures
        out@ == right_aligned(text@, width as nat),
{
    let len: usize = text.unicode_len();
    let mut out = String::new();
    if len < width {
        push_blanks(&mut out, width - len);
    }
    out.append(text);
    out
}

/// Left-aligns `text` in a field of `width` characters.
pub fn align_left(text: &str, width: usize) -> (out: String)
    ensures
        out@ == left_aligned(text@, width as nat),
{
    let len: usize = text.unicode_len();
    let mut out: String = text.to_owned();
    if len < width {
        push_blanks(&mut out, width - len);
    }
    out
}

/// The byte-wise lexicographic order: whether `a` comes before `b` or is `b`.
/// The first byte in which the two differ decides; where there is none, the
/// shorter comes first.
pub open spec fn bytes_le(a: Seq<u8>, b: Seq<u8>) -> bool
    decreases a.len(),
{
    if a.len() == 0 {
        true
    } else if b.len() == 0 {
        false
    } else if a[0] != b[0] {
        a[0] < b[0]
    } else {
        bytes_le(a.skip(1), b.skip(1))
    }
}

/// The order of two texts by their UTF-8 bytes.
pub open spec fn text_le(a: Seq<char>, b: Seq<char>) -> bool {
    bytes_le(encode_utf8(a), encode_utf8(b))
}

/// Every sequence of bytes comes before itself or is itself.
pub proof fn lemma_bytes_le_reflexive(a: Seq<u8>)
    ensures
        bytes_le(a, a),
    decreases a.len(),
{
    if a.len() > 0 {
        lemma_bytes_le_reflexive(a.skip(1));
    }
}

/// Of two sequences of bytes one comes before the other or is the other.
pub proof fn lemma_bytes_le_total(a: Seq<u8>, b: Seq<u8>)
    ensures
        bytes_le(a, b) || bytes_le(b, a),
    decreases a.len(),
{
    if a.len() > 0 && b.len() > 0 && a[0] == b[0] {
        lemma_bytes_le_total(a.skip(1), b.skip(1));
    }
}

/// The byte-wise order is transitive.
pub proof fn lemma_bytes_le_transitive(a: Seq<u8>, b: Seq<u8>, c: Seq<u8>)
    requires
        bytes_le(a, b),
        bytes_le(b, c),
    ensures
        bytes_le(a, c),
    decreases a.len(),
{
    if a.len() > 0 && b.len() > 0 && c.len() > 0 && a[0] == b[0] && b[0] == c[0] {
        lemma_bytes_le_transitive(a.skip(1), b.skip(1), c.skip(1));
    }
}

/// Two sequences of bytes of which each comes before the other or is the
/// other are the same.
pub proof fn lemma_bytes_le_antisymmetric(a: Seq<u8>, b: Seq<u8>)
    requires
        bytes_le(a, b),
        bytes_le(b, a),
    ensures
        a == b,
    decreases a.len(),
{
    if a.len() > 0 && b.len() > 0 {
        lemma_bytes_le_antisymmetric(a.skip(1), b.skip(1));
        assert(a =~= seq![a[0]] + a.skip(1));
        assert(b =~= seq![b[0]] + b.skip(1));
    } else {
        assert(a =~= b);
    }
}

/// Two texts of which each comes before the other or is the other are the
/// same.
pub proof fn lemma_text_le_antisymmetric(a: Seq<char>, b: Seq<char>)
    requires
        text_le(a, b),
        text_le(b, a),
    ensures
        a == b,
{
    lemma_bytes_le_antisymmetric(encode_utf8(a), encode_utf8(b));
    encode_utf8_decode_utf8(a);
    encode_utf8_decode_utf8(b);
}

/// Whether two texts are the same.
pub fn same_text(a: &str, b: &str) -> (same: bool)
    ensures
        same == (a@ == b@),
{
    let x = a.as_bytes();
    let y = b.as_bytes();
    proof {
        encode_utf8_decode_utf8(a@);
        encode_utf8_decode_utf8(b@);
    }
    if x.len() != y.len() {
        return false;
    }
    let mut at: usize = 0;
    while at < x.len()
        invariant
            at <= x@.len(),
            x@.len() == y@.len(),
            x@ == encode_utf8(a@),
            y@ == encode_utf8(b@),
            forall|i: int| 0 <= i < at ==> x@[i] == y@[i],
        decreases x@.len() - at,
    {
        if x[at] != y[at] {
            return false;
        }
        at = at + 1;
    }
    assert(x@ =~= y@);
    true
}

/// Whether `a` comes before `b`, or is `b`, in the order of their UTF-8 bytes.
pub fn precedes(a: &str, b: &str) -> (le: bool)
    ensures
        le == text_le(a@, b@),
{
    let x = a.as_bytes();
    let y = b.as_bytes();
    let mut at: usize = 0;
    assert(x@.skip(0) =~= x@ && y@.skip(0) =~= y@);
    while at < x.len() && at < y.len()
        invariant
            at <= x@.len(),
            at <= y@.len(),
            x@ == encode_utf8(a@),
            y@ == encode_utf8(b@),
            bytes_le(x@, y@) == bytes_le(x@.skip(at as int), y@.skip(at as int)),
        decreases x@.len() - at,
    {
        assert(x@.skip(at as int)[0] == x@[at as int] && y@.skip(at as int)[0] == y@[at as int]);
        if x[at] != y[at] {
            return x[at] < y[at];
        }
        assert(x@.skip(at as int).skip(1) =~= x@.skip(at + 1));
        assert(y@.skip(at as int).skip(1) =~= y@.skip(at + 1));
        at = at + 1;
    }
    at == x.len()
}

/// A text has at least as many bytes as it has characters.
pub proof fn lemma_bytes_cover_chars(text: Seq<char>)
    ensures
        text.len() <= encode_utf8(text).len(),
    decreases text.len(),
{
    if text.len() > 0 {
        lemma_bytes_cover_chars(text.drop_first());
        assert(encode_scalar(text[0] as u32).len() >= 1);
    }
}

/// A text that fits a field fills it when it is aligned.
pub proof fn lemma_aligned_len(text: Seq<char>, width: nat)
    requires
        text.len() <= width,
    ensures
        right_aligned(text, width).len() == width,
        left_aligned(text, width).len() == width,
{
}

} // verus!
