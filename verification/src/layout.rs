//! Where each field of the raw record lies in the producer's memory.
//!
//! The record is a C struct without padding: every field starts where the one before
//! it ends. Integers, and the bit patterns of the single-precision numbers, are stored
//! least significant byte first. Only the width of a wide character differs between
//! producers, and with it every offset behind the first text buffer.

use vstd::prelude::*;
use crate::wide_text::WideEncoding;

verus! {

/// Wide characters in the avatar's name.
pub const NAME_UNITS: usize = 256;

/// Wide characters in the identity.
pub const IDENTITY_UNITS: usize = 256;

/// Bytes of context.
pub const CONTEXT_BYTES: usize = 256;

/// Wide characters in the description.
pub const DESCRIPTION_UNITS: usize = 2048;

/// Bytes of one wide character.
pub open spec fn unit_width(wide: WideEncoding) -> int {
    match wide {
        WideEncoding::Utf16 => 2,
        WideEncoding::Utf32 => 4,
    }
}

/// Bytes of `count` wide characters.
pub open spec fn wide_span(count: int, wide: WideEncoding) -> int {
    match wide {
        WideEncoding::Utf16 => 2 * count,
        WideEncoding::Utf32 => 4 * count,
    }
}

/// Bytes of one position block: three vectors of three 32-bit numbers.
pub open spec fn position_size() -> int {
    36
}

pub open spec fn ui_version_offset() -> int {
    0
}

pub open spec fn ui_tick_offset() -> int {
    4
}

pub open spec fn avatar_offset() -> int {
    8
}

pub open spec fn name_offset() -> int {
    44
}

pub open spec fn camera_offset(wide: WideEncoding) -> int {
    44 + 256 * unit_width(wide)
}

pub open spec fn identity_offset(wide: WideEncoding) -> int {
    80 + 256 * unit_width(wide)
}

pub open spec fn context_len_offset(wide: WideEncoding) -> int {
    80 + 512 * unit_width(wide)
}

pub open spec fn context_offset(wide: WideEncoding) -> int {
    84 + 512 * unit_width(wide)
}

pub open spec fn description_offset(wide: WideEncoding) -> int {
    340 + 512 * unit_width(wide)
}

/// Bytes of the whole record.
pub open spec fn raw_size(wide: WideEncoding) -> int {
    340 + 2560 * unit_width(wide)
}

/// The fields follow one another without a gap, and the last one ends the record.
pub proof fn lemma_fields_are_contiguous(wide: WideEncoding)
    ensures
        ui_tick_offset() == ui_version_offset() + 4,
        avatar_offset() == ui_tick_offset() + 4,
        name_offset() == avatar_offset() + position_size(),
        camera_offset(wide) == name_offset() + wide_span(NAME_UNITS as int, wide),
        identity_offset(wide) == camera_offset(wide) + position_size(),
        context_len_offset(wide) == identity_offset(wide) + wide_span(
            IDENTITY_UNITS as int,
            wide,
        ),
        context_offset(wide) == context_len_offset(wide) + 4,
        description_offset(wide) == context_offset(wide) + CONTEXT_BYTES,
        raw_size(wide) == description_offset(wide) + wide_span(DESCRIPTION_UNITS as int, wide),
        wide == WideEncoding::Utf16 ==> raw_size(wide) == 5460,
        wide == WideEncoding::Utf32 ==> raw_size(wide) == 10580,
{
}

/// The 16-bit number whose two bytes start at `at`.
pub open spec fn le_u16_at(bytes: Seq<u8>, at: int) -> int {
    bytes[at] + 256 * bytes[at + 1]
}

/// The 32-bit number whose four bytes start at `at`.
pub open spec fn le_u32_at(bytes: Seq<u8>, at: int) -> int {
    bytes[at] + 256 * bytes[at + 1] + 65536 * bytes[at + 2] + 16777216 * bytes[at + 3]
}

/// The wide character with index `i` in the buffer that starts at `at`.
pub open spec fn wide_unit_at(bytes: Seq<u8>, at: int, i: int, wide: WideEncoding) -> int {
    match wide {
        WideEncoding::Utf16 => le_u16_at(bytes, at + 2 * i),
        WideEncoding::Utf32 => le_u32_at(bytes, at + 4 * i),
    }
}

/// The buffer of `count` wide characters that starts at `at`.
pub open spec fn wide_units_at(bytes: Seq<u8>, at: int, count: nat, wide: WideEncoding) -> Seq<
    u32,
> {
    Seq::new(count, |i: int| wide_unit_at(bytes, at, i, wide) as u32)
}

/// The three 32-bit numbers that start at `at`.
pub open spec fn vector_at(bytes: Seq<u8>, at: int) -> Seq<u32> {
    Seq::new(3, |k: int| le_u32_at(bytes, at + 4 * k) as u32)
}

/// The number of bytes that one wide character takes.
pub fn unit_bytes(wide: WideEncoding) -> (w: usize)
    ensures
        w == unit_width(wide),
{
    match wide {
        WideEncoding::Utf16 => 2,
        WideEncoding::Utf32 => 4,
    }
}

/// The number of bytes that the record takes in the producer's memory.
pub fn record_size(wide: WideEncoding) -> (n: usize)
    ensures
        n == raw_size(wide),
{
    match wide {
        WideEncoding::Utf16 => 5460,
        WideEncoding::Utf32 => 10580,
    }
}

/// Reads the 16-bit number at `at`.
pub fn read_u16(bytes: &[u8], at: usize) -> (x: u16)
    requires
        at + 2 <= bytes.len(),
    ensures
        x == le_u16_at(bytes@, at as int),
{
    let low: u16 = bytes[at] as u16;
    let high: u16 = bytes[at + 1] as u16;
    low + 256 * high
}

/// Reads the 32-bit number at `at`.
pub fn read_u32(bytes: &[u8], at: usize) -> (x: u32)
    requires
        at + 4 <= bytes.len(),
    ensures
        x == le_u32_at(bytes@, at as int),
{
    let b0: u32 = bytes[at] as u32;
    let b1: u32 = bytes[at + 1] as u32;
    let b2: u32 = bytes[at + 2] as u32;
    let b3: u32 = bytes[at + 3] as u32;
    b0 + 256 * b1 + 65536 * b2 + 16777216 * b3
}

/// Reads the three 32-bit numbers at `at`.
pub fn read_vector(bytes: &[u8], at: usize) -> (v: [u32; 3])
    requires
        at + 12 <= bytes.len(),
    ensures
        v@ == vector_at(bytes@, at as int),
{
    let v: [u32; 3] = [read_u32(bytes, at), read_u32(bytes, at + 4), read_u32(bytes, at + 8)];
    v
}

/// Copies the `N` bytes at `at`.
pub fn read_bytes<const N: usize>(bytes: &[u8], at: usize) -> (out: [u8; N])
    requires
        at + N <= bytes.len(),
    ensures
        out@ == bytes@.subrange(at as int, at + N),
{
    let mut out: [u8; N] = [0u8; N];
    let mut i: usize = 0;
    while i < N
        invariant
            i <= N,
            at + N <= bytes.len(),
            forall|j: int| 0 <= j < i ==> out@[j] == bytes@[at + j],
        decreases N - i,
    {
        out[i] = bytes[at + i];
        i += 1;
    }
    out
}

/// Reads the buffer of `N` wide characters at `at`.
pub fn read_wide_units<const N: usize>(bytes: &[u8], at: usize, wide: WideEncoding) -> (out: [u32;
    N])
    requires
        at + wide_span(N as int, wide) <= bytes.len(),
    ensures
        out@ == wide_units_at(bytes@, at as int, N as nat, wide),
{
    let mut out: [u32; N] = [0u32; N];
    let mut i: usize = 0;
    while i < N
        invariant
            i <= N,
            at + wide_span(N as int, wide) <= bytes.len(),
            forall|j: int| 0 <= j < i ==> out@[j] == wide_unit_at(bytes@, at as int, j, wide),
        decreases N - i,
    {
        let unit: u32 = match wide {
            WideEncoding::Utf16 => read_u16(bytes, at + 2 * i) as u32,
            WideEncoding::Utf32 => read_u32(bytes, at + 4 * i),
        };
        out[i] = unit;
        i += 1;
    }
    out
}

/// Byte `k` of a number, counted from the least significant one.
pub open spec fn le_byte(x: int, k: int) -> u8 {
    if k == 0 {
        (x % 256) as u8
    } else if k == 1 {
        (x / 256 % 256) as u8
    } else if k == 2 {
        (x / 65536 % 256) as u8
    } else {
        (x / 16777216 % 256) as u8
    }
}

/// The four bytes that a 32-bit number takes in memory.
pub open spec fn u32_image(x: u32) -> Seq<u8> {
    Seq::new(4, |k: int| le_byte(x as int, k))
}

/// The bytes that a buffer of wide characters takes in memory.
pub open spec fn wide_units_image(units: Seq<u32>, wide: WideEncoding) -> Seq<u8> {
    match wide {
        WideEncoding::Utf16 => Seq::new(2 * units.len(), |i: int| le_byte(units[i / 2] as int, i % 2)),
        WideEncoding::Utf32 => Seq::new(4 * units.len(), |i: int| le_byte(units[i / 4] as int, i % 4)),
    }
}

/// The twelve bytes that a vector takes in memory.
pub open spec fn vector_image(v: Seq<u32>) -> Seq<u8> {
    wide_units_image(v, WideEncoding::Utf32)
}

/// Whether every unit fits the width of the encoding.
pub open spec fn units_fit(units: Seq<u32>, wide: WideEncoding) -> bool {
    wide == WideEncoding::Utf16 ==> forall|i: int| 0 <= i < units.len() ==> units[i] < 0x10000
}

/// A 32-bit number is read back from where its image lies.
pub proof fn lemma_u32_reads_back(bytes: Seq<u8>, at: int, x: u32)
    requires
        0 <= at,
        at + 4 <= bytes.len(),
        bytes.subrange(at, at + 4) == u32_image(x),
    ensures
        le_u32_at(bytes, at) == x,
{
    let image = bytes.subrange(at, at + 4);
    assert(image[0] == le_byte(x as int, 0));
    assert(image[1] == le_byte(x as int, 1));
    assert(image[2] == le_byte(x as int, 2));
    assert(image[3] == le_byte(x as int, 3));
}

/// A buffer of wide characters is read back from where its image lies.
pub proof fn lemma_wide_units_read_back(
    bytes: Seq<u8>,
    at: int,
    units: Seq<u32>,
    wide: WideEncoding,
)
    requires
        0 <= at,
        at + wide_span(units.len() as int, wide) <= bytes.len(),
        bytes.subrange(at, at + wide_span(units.len() as int, wide)) == wide_units_image(
            units,
            wide,
        ),
        units_fit(units, wide),
    ensures
        wide_units_at(bytes, at, units.len(), wide) == units,
{
    let image = bytes.subrange(at, at + wide_span(units.len() as int, wide));
    assert forall|i: int| 0 <= i < units.len() implies wide_unit_at(bytes, at, i, wide)
        == units[i] by {
        match wide {
            WideEncoding::Utf16 => {
                assert(image[2 * i] == le_byte(units[i] as int, 0));
                assert(image[2 * i + 1] == le_byte(units[i] as int, 1));
            },
            WideEncoding::Utf32 => {
                assert(image[4 * i] == le_byte(units[i] as int, 0));
                assert(image[4 * i + 1] == le_byte(units[i] as int, 1));
                assert(image[4 * i + 2] == le_byte(units[i] as int, 2));
                assert(image[4 * i + 3] == le_byte(units[i] as int, 3));
            },
        }
    }
}

/// A vector is read back from where its image lies.
pub proof fn lemma_vector_reads_back(bytes: Seq<u8>, at: int, v: Seq<u32>)
    requires
        0 <= at,
        at + 12 <= bytes.len(),
        v.len() == 3,
        bytes.subrange(at, at + 12) == vector_image(v),
    ensures
        vector_at(bytes, at) == v,
{
    lemma_wide_units_read_back(bytes, at, v, WideEncoding::Utf32);
}

/// The bytes of a 16-bit number are those it was put together from.
pub proof fn lemma_bytes_of_u16(b0: u8, b1: u8)
    ensures
        le_byte(b0 + 256 * b1, 0) == b0,
        le_byte(b0 + 256 * b1, 1) == b1,
        0 <= b0 + 256 * b1 < 0x10000,
{
}

/// The bytes of a 32-bit number are those it was put together from.
pub proof fn lemma_bytes_of_u32(b0: u8, b1: u8, b2: u8, b3: u8)
    ensures
        le_byte(b0 + 256 * b1 + 65536 * b2 + 16777216 * b3, 0) == b0,
        le_byte(b0 + 256 * b1 + 65536 * b2 + 16777216 * b3, 1) == b1,
        le_byte(b0 + 256 * b1 + 65536 * b2 + 16777216 * b3, 2) == b2,
        le_byte(b0 + 256 * b1 + 65536 * b2 + 16777216 * b3, 3) == b3,
        0 <= b0 + 256 * b1 + 65536 * b2 + 16777216 * b3 <= u32::MAX,
{
}

/// The image of the 32-bit number that was read at `at` is the four bytes there.
pub proof fn lemma_u32_image_of_read(bytes: Seq<u8>, at: int)
    requires
        0 <= at,
        at + 4 <= bytes.len(),
    ensures
        u32_image(le_u32_at(bytes, at) as u32) == bytes.subrange(at, at + 4),
{
    lemma_bytes_of_u32(bytes[at], bytes[at + 1], bytes[at + 2], bytes[at + 3]);
}

/// Byte `i` of the image of the 16-bit units that were read at `at` is byte `at + i`.
proof fn lemma_utf16_image_byte(bytes: Seq<u8>, at: int, count: nat, i: int)
    requires
        0 <= at,
        at + 2 * count <= bytes.len(),
        0 <= i < 2 * count,
    ensures
        wide_units_image(wide_units_at(bytes, at, count, WideEncoding::Utf16), WideEncoding::Utf16)[i]
            == bytes[at + i],
        wide_units_at(bytes, at, count, WideEncoding::Utf16)[i / 2] < 0x10000,
{
    let j = i / 2;
    lemma_bytes_of_u16(bytes[at + 2 * j], bytes[at + 2 * j + 1]);
}

/// Byte `i` of the image of the 32-bit units that were read at `at` is byte `at + i`.
proof fn lemma_utf32_image_byte(bytes: Seq<u8>, at: int, count: nat, i: int)
    requires
        0 <= at,
        at + 4 * count <= bytes.len(),
        0 <= i < 4 * count,
    ensures
        wide_units_image(wide_units_at(bytes, at, count, WideEncoding::Utf32), WideEncoding::Utf32)[i]
            == bytes[at + i],
{
    let j = i / 4;
    lemma_bytes_of_u32(
        bytes[at + 4 * j],
        bytes[at + 4 * j + 1],
        bytes[at + 4 * j + 2],
        bytes[at + 4 * j + 3],
    );
}

/// The image of the wide characters that were read at `at` is the bytes there, and
/// each of them fits the width of the encoding.
pub proof fn lemma_wide_units_image_of_read(
    bytes: Seq<u8>,
    at: int,
    count: nat,
    wide: WideEncoding,
)
    requires
        0 <= at,
        at + wide_span(count as int, wide) <= bytes.len(),
    ensures
        units_fit(wide_units_at(bytes, at, count, wide), wide),
        wide_units_image(wide_units_at(bytes, at, count, wide), wide) == bytes.subrange(
            at,
            at + wide_span(count as int, wide),
        ),
{
    let units = wide_units_at(bytes, at, count, wide);
    let image = wide_units_image(units, wide);
    let there = bytes.subrange(at, at + wide_span(count as int, wide));
    match wide {
        WideEncoding::Utf16 => {
            assert forall|i: int| 0 <= i < 2 * count implies image[i] == there[i] by {
                lemma_utf16_image_byte(bytes, at, count, i);
            }
            assert forall|j: int| 0 <= j < units.len() implies units[j] < 0x10000 by {
                lemma_utf16_image_byte(bytes, at, count, 2 * j);
            }
        },
        WideEncoding::Utf32 => {
            assert forall|i: int| 0 <= i < 4 * count implies image[i] == there[i] by {
                lemma_utf32_image_byte(bytes, at, count, i);
            }
        },
    }
}

/// The image of the vector that was read at `at` is the twelve bytes there.
pub proof fn lemma_vector_image_of_read(bytes: Seq<u8>, at: int)
    requires
        0 <= at,
        at + 12 <= bytes.len(),
    ensures
        vector_image(vector_at(bytes, at)) == bytes.subrange(at, at + 12),
{
    lemma_wide_units_image_of_read(bytes, at, 3, WideEncoding::Utf32);
}

} // verus!
