//! Wide-character buffers and the text they hold.
//!
//! The producer writes text as a fixed array of wide code units, ended by a zero unit
//! or filling the whole array. How a unit is to be read depends on the producer's
//! platform: 16-bit units are UTF-16, 32-bit units are code points. Decoding never
//! fails: whatever is not valid text becomes U+FFFD.

use vstd::prelude::*;

verus! {

/// How the producer encodes wide characters.
#[derive(Clone, Copy, Debug, PartialEq, Eq, Structural)]
pub enum WideEncoding {
    /// 16-bit code units, surrogate pairs for the characters above U+FFFF.
    Utf16,
    /// 32-bit code units, one code point each.
    Utf32,
}

/// `String::push` appends one character to the end of the string.
pub assume_specification[ String::push ](s: &mut String, ch: char)
    ensures
        final(s)@ == old(s)@.push(ch),
;

/// `char::from_u32` gives the character with the given number when that number is a
/// Unicode scalar value, and `None` otherwise.
pub assume_specification[ char::from_u32 ](i: u32) -> (r: Option<char>)
    ensures
        r == (if is_scalar(i as int) {
            Some(i as char)
        } else {
            None::<char>
        }),
;

/// A Unicode scalar value: a code point that is no surrogate.
pub open spec fn is_scalar(u: int) -> bool {
    0 <= u < 0xD800 || 0xE000 <= u <= 0x10FFFF
}

/// The first half of a UTF-16 surrogate pair.
pub open spec fn is_high_surrogate(u: int) -> bool {
    0xD800 <= u <= 0xDBFF
}

/// The second half of a UTF-16 surrogate pair.
pub open spec fn is_low_surrogate(u: int) -> bool {
    0xDC00 <= u <= 0xDFFF
}

/// The code point that a surrogate pair stands for.
pub open spec fn surrogate_pair(high: int, low: int) -> int {
    0x10000 + (high - 0xD800) * 0x400 + (low - 0xDC00)
}

/// U+FFFD, which takes the place of whatever cannot be decoded.
pub open spec fn replacement() -> char {
    '\u{FFFD}'
}

/// The character of a code point, or U+FFFD where the number is none.
pub open spec fn scalar_or_replacement(u: int) -> char {
    if is_scalar(u) {
        u as char
    } else {
        replacement()
    }
}

/// The first index at or after `from` that holds a zero unit, or the length of `units`
/// if there is none.
pub open spec fn zero_from(units: Seq<u32>, from: int) -> int
    decreases units.len() - from,
{
    if from >= units.len() || units[from] == 0 {
        from
    } else {
        zero_from(units, from + 1)
    }
}

/// The number of units before the first zero unit; the whole length if no unit is zero.
pub open spec fn text_len(units: Seq<u32>) -> int {
    zero_from(units, 0)
}

/// 32-bit units decoded one by one.
pub open spec fn utf32_lossy(units: Seq<u32>) -> Seq<char> {
    Seq::new(units.len(), |i: int| scalar_or_replacement(units[i] as int))
}

/// 16-bit units decoded from the front: a high surrogate directly followed by a low one
/// is one character, any other surrogate is replaced, and so is a unit that does not
/// fit in 16 bits.
pub open spec fn utf16_lossy(units: Seq<u32>) -> Seq<char>
    decreases units.len(),
{
    if units.len() == 0 {
        Seq::<char>::empty()
    } else if is_high_surrogate(units[0] as int) && units.len() >= 2 && is_low_surrogate(
        units[1] as int,
    ) {
        seq![surrogate_pair(units[0] as int, units[1] as int) as char] + utf16_lossy(units.skip(2))
    } else if units[0] < 0x10000 {
        seq![scalar_or_replacement(units[0] as int)] + utf16_lossy(units.skip(1))
    } else {
        seq![replacement()] + utf16_lossy(units.skip(1))
    }
}

/// All of `units` decoded in the given encoding.
pub open spec fn lossy(units: Seq<u32>, wide: WideEncoding) -> Seq<char> {
    match wide {
        WideEncoding::Utf16 => utf16_lossy(units),
        WideEncoding::Utf32 => utf32_lossy(units),
    }
}

/// The text of a wide-character buffer: the units before the first zero, decoded.
pub open spec fn wide_text(units: Seq<u32>, wide: WideEncoding) -> Seq<char> {
    lossy(units.take(text_len(units)), wide)
}

/// `zero_from` finds the first zero at or after `from`.
pub proof fn lemma_zero_from(units: Seq<u32>, from: int)
    requires
        0 <= from <= units.len(),
    ensures
        from <= zero_from(units, from) <= units.len(),
        forall|i: int| from <= i < zero_from(units, from) ==> units[i] != 0,
        zero_from(units, from) < units.len() ==> units[zero_from(units, from)] == 0,
    decreases units.len() - from,
{
    if from < units.len() && units[from] != 0 {
        lemma_zero_from(units, from + 1);
    }
}

/// The text ends at the first zero unit and holds none; a buffer without a zero unit is
/// text from end to end.
pub proof fn lemma_text_len(units: Seq<u32>)
    ensures
        0 <= text_len(units) <= units.len(),
        forall|i: int| 0 <= i < text_len(units) ==> units[i] != 0,
        text_len(units) < units.len() ==> units[text_len(units)] == 0,
        (forall|i: int| 0 <= i < units.len() ==> units[i] != 0) ==> text_len(units)
            == units.len(),
{
    lemma_zero_from(units, 0);
}

/// The number of units in `src` before its first zero unit.
pub fn text_length(src: &[u32]) -> (n: usize)
    ensures
        n == text_len(src@),
        n <= src@.len(),
{
    let mut i: usize = 0;
    while i < src.len() && src[i] != 0
        invariant
            i <= src@.len(),
            zero_from(src@, i as int) == text_len(src@),
        decreases src@.len() - i,
    {
        i += 1;
    }
    i
}

/// Decodes the first `n` units of `src` as code points.
fn decode_utf32(src: &[u32], n: usize) -> (out: String)
    requires
        n <= src@.len(),
    ensures
        out@ == utf32_lossy(src@.take(n as int)),
{
    let mut out = String::new();
    let mut i: usize = 0;
    while i < n
        invariant
            i <= n <= src@.len(),
            out@.len() == i,
            forall|j: int| 0 <= j < i ==> out@[j] == scalar_or_replacement(src@[j] as int),
        decreases n - i,
    {
        let ch = match char::from_u32(src[i]) {
            Some(c) => c,
            None => '\u{FFFD}',
        };
        out.push(ch);
        i += 1;
    }
    out
}

/// Decodes the first `n` units of `src` as UTF-16.
fn decode_utf16(src: &[u32], n: usize) -> (out: String)
    requires
        n <= src@.len(),
    ensures
        out@ == utf16_lossy(src@.take(n as int)),
{
    let ghost text = src@.take(n as int);
    let mut out = String::new();
    let mut i: usize = 0;
    assert(text.skip(0) =~= text);
    while i < n
        invariant
            i <= n <= src@.len(),
            text == src@.take(n as int),
            out@ + utf16_lossy(text.skip(i as int)) == utf16_lossy(text),
        decreases n - i,
    {
        let ghost rest = text.skip(i as int);
        let u: u32 = src[i];
        if 0xD800 <= u && u <= 0xDBFF && i + 1 < n && 0xDC00 <= src[i + 1] && src[i + 1] <= 0xDFFF {
            let v: u32 = src[i + 1];
            let code: u32 = 0x10000 + (u - 0xD800) * 0x400 + (v - 0xDC00);
            let ch = match char::from_u32(code) {
                Some(c) => c,
                None => '\u{FFFD}',
            };
            assert(rest.skip(2) =~= text.skip(i as int + 2));
            out.push(ch);
            i += 2;
        } else {
            let ch = if u < 0x10000 {
                match char::from_u32(u) {
                    Some(c) => c,
                    None => '\u{FFFD}',
                }
            } else {
                '\u{FFFD}'
            };
            assert(rest.skip(1) =~= text.skip(i as int + 1));
            out.push(ch);
            i += 1;
        }
    }
    out
}

/// Decodes a wide-character buffer: the units before the first zero unit (all of them
/// if none is zero) become text, and what is not valid in the encoding becomes U+FFFD.
pub fn wchar_t_to_string(src: &[u32], wide: WideEncoding) -> (text: String)
    ensures
        text@ == wide_text(src@, wide),
{
    let zero: usize = text_length(src);
    match wide {
        WideEncoding::Utf16 => decode_utf16(src, zero),
        WideEncoding::Utf32 => decode_utf32(src, zero),
    }
}

/// A buffer without a zero unit is decoded from end to end.
pub proof fn lemma_unterminated_text(units: Seq<u32>, wide: WideEncoding)
    requires
        forall|i: int| 0 <= i < units.len() ==> units[i] != 0,
    ensures
        wide_text(units, wide) == lossy(units, wide),
{
    lemma_text_len(units);
    assert(units.take(units.len() as int) =~= units);
}

/// Text ends at the first zero unit: what follows it, zero or not, is not decoded.
pub proof fn lemma_text_stops_at_zero(text: Seq<u32>, padding: Seq<u32>, wide: WideEncoding)
    requires
        forall|i: int| 0 <= i < text.len() ==> text[i] != 0,
    ensures
        wide_text(text + seq![0u32] + padding, wide) == lossy(text, wide),
{
    let units = text + seq![0u32] + padding;
    lemma_text_len(units);
    assert(units[text.len() as int] == 0);
    assert(units.take(text.len() as int) =~= text);
}

/// Units below the surrogates stand for themselves in both encodings. ASCII text in
/// particular comes out unit for unit.
pub proof fn lemma_plain_text(units: Seq<u32>, wide: WideEncoding)
    requires
        forall|i: int| 0 <= i < units.len() ==> units[i] < 0xD800,
    ensures
        lossy(units, wide) == Seq::new(units.len(), |i: int| units[i] as char),
    decreases units.len(),
{
    if wide == WideEncoding::Utf16 && units.len() > 0 {
        lemma_plain_text(units.skip(1), wide);
    }
}

/// Decoding makes at most one character of each unit, and makes a NUL only of a zero
/// unit.
pub proof fn lemma_lossy_is_bounded(units: Seq<u32>, wide: WideEncoding)
    ensures
        lossy(units, wide).len() <= units.len(),
        (forall|i: int| 0 <= i < units.len() ==> units[i] != 0) ==> forall|k: int|
            0 <= k < lossy(units, wide).len() ==> lossy(units, wide)[k] != '\0',
    decreases units.len(),
{
    if wide == WideEncoding::Utf16 && units.len() > 0 {
        if is_high_surrogate(units[0] as int) && units.len() >= 2 && is_low_surrogate(
            units[1] as int,
        ) {
            lemma_lossy_is_bounded(units.skip(2), wide);
        } else {
            lemma_lossy_is_bounded(units.skip(1), wide);
        }
    }
}

/// The text of a buffer is no longer than the buffer and holds no NUL.
pub proof fn lemma_text_is_bounded(units: Seq<u32>, wide: WideEncoding)
    ensures
        wide_text(units, wide).len() <= text_len(units) <= units.len(),
        forall|k: int| 0 <= k < wide_text(units, wide).len() ==> wide_text(units, wide)[k] != '\0',
{
    lemma_text_len(units);
    lemma_lossy_is_bounded(units.take(text_len(units)), wide);
}

} // verus!
