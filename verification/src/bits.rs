//! Bit-field arithmetic over architectural register images.
//!
//! Every register representation in this crate stores its exact hardware
//! image as an unsigned integer. Named fields are contiguous bit ranges of
//! that image. The spec functions here define what a field *is*, the exec
//! functions compute it, and the proof functions state the laws that reading
//! and writing fields obey.

use vstd::prelude::*;

verus! {

/// The state of a single-bit field.
#[derive(Debug, Clone, Copy, PartialEq, Eq, PartialOrd, Ord, Hash)]
pub enum State {
    /// The bit is zero.
    Cleared,
    /// The bit is one.
    Raised,
}

impl State {
    /// The state that corresponds to a bit value.
    pub open spec fn of(b: bool) -> State {
        if b {
            State::Raised
        } else {
            State::Cleared
        }
    }

    /// Whether this state denotes a one bit.
    pub open spec fn is_set(self) -> bool {
        self is Raised
    }

    /// Returns whether this state denotes a one bit.
    pub fn set(self) -> (r: bool)
        ensures
            r == self.is_set(),
    {
        match self {
            State::Raised => true,
            State::Cleared => false,
        }
    }

    /// Converts a bit value into its state.
    pub fn from_bool(b: bool) -> (r: State)
        ensures
            r == State::of(b),
    {
        if b {
            State::Raised
        } else {
            State::Cleared
        }
    }
}

/// A mask of the `width` lowest bits.
pub open spec fn low_mask(width: u64) -> u64 {
    !(u64::MAX << width)
}

/// The value of the `width`-bit field starting at bit `lo` of `v`.
pub open spec fn field_of(v: u64, lo: u64, width: u64) -> u64 {
    (v >> lo) & low_mask(width)
}

/// Whether bit `b` of `v` is set.
pub open spec fn bit_of(v: u64, b: u64) -> bool {
    (v >> b) & 1u64 == 1u64
}

/// `v` with the `width`-bit field at `lo` replaced by the low `width` bits of `x`.
pub open spec fn with_field(v: u64, lo: u64, width: u64, x: u64) -> u64 {
    (v & !(low_mask(width) << lo)) | ((x & low_mask(width)) << lo)
}

/// `v` with bit `b` set when `s` holds and cleared otherwise.
pub open spec fn with_bit(v: u64, b: u64, s: bool) -> u64 {
    if s {
        v | (1u64 << b)
    } else {
        v & !(1u64 << b)
    }
}

/// A field position that fits a 64-bit image.
pub open spec fn fits(lo: u64, width: u64) -> bool {
    0 < width < 64 && lo + width <= 64
}

/// Two field positions that share no bit.
pub open spec fn disjoint(lo1: u64, width1: u64, lo2: u64, width2: u64) -> bool {
    lo1 + width1 <= lo2 || lo2 + width2 <= lo1
}

/// Reads a field of a 64-bit image.
pub fn get_field(v: u64, lo: u64, width: u64) -> (r: u64)
    requires
        fits(lo, width),
    ensures
        r == field_of(v, lo, width),
        r <= low_mask(width),
{
    proof {
        lemma_field_bound(v, lo, width);
    }
    (v >> lo) & !(u64::MAX << width)
}

/// Reads a field of at most thirty-two bits.
pub fn get_field_u32(v: u64, lo: u64, width: u64) -> (r: u32)
    requires
        fits(lo, width),
        width <= 32,
    ensures
        r == field_of(v, lo, width),
        r <= low_mask(width),
{
    proof {
        lemma_field_bound(v, lo, width);
    }
    let f = (v >> lo) & !(u64::MAX << width);
    assert(f <= 0xffff_ffff) by (bit_vector)
        requires
            f == (v >> lo) & !(u64::MAX << width),
            width <= 32,
    ;
    f as u32
}

/// Reads a field of at most sixteen bits.
pub fn get_field_u16(v: u64, lo: u64, width: u64) -> (r: u16)
    requires
        fits(lo, width),
        width <= 16,
    ensures
        r == field_of(v, lo, width),
        r <= low_mask(width),
{
    proof {
        lemma_field_bound(v, lo, width);
    }
    let f = (v >> lo) & !(u64::MAX << width);
    assert(f <= 0xffff) by (bit_vector)
        requires
            f == (v >> lo) & !(u64::MAX << width),
            width <= 16,
    ;
    f as u16
}

/// Reads a field of at most eight bits.
pub fn get_field_u8(v: u64, lo: u64, width: u64) -> (r: u8)
    requires
        fits(lo, width),
        width <= 8,
    ensures
        r == field_of(v, lo, width),
        r <= low_mask(width),
{
    proof {
        lemma_field_bound(v, lo, width);
    }
    let f = (v >> lo) & !(u64::MAX << width);
    assert(f <= 0xff) by (bit_vector)
        requires
            f == (v >> lo) & !(u64::MAX << width),
            width <= 8,
    ;
    f as u8
}

/// Writes a field of a 64-bit image.
pub fn set_field(v: u64, lo: u64, width: u64, x: u64) -> (r: u64)
    requires
        fits(lo, width),
    ensures
        r == with_field(v, lo, width, x),
{
    (v & !(!(u64::MAX << width) << lo)) | ((x & !(u64::MAX << width)) << lo)
}

/// Reads one bit of a 64-bit image.
pub fn get_bit(v: u64, b: u64) -> (r: State)
    requires
        b < 64,
    ensures
        r == State::of(bit_of(v, b)),
{
    if (v >> b) & 1u64 == 1u64 {
        State::Raised
    } else {
        State::Cleared
    }
}

/// Writes one bit of a 64-bit image.
pub fn set_bit(v: u64, b: u64, s: State) -> (r: u64)
    requires
        b < 64,
    ensures
        r == with_bit(v, b, s.is_set()),
{
    match s {
        State::Raised => v | (1u64 << b),
        State::Cleared => v & !(1u64 << b),
    }
}

/// Writes a field of a 32-bit image.
pub fn set_field_u32(v: u32, lo: u64, width: u64, x: u64) -> (r: u32)
    requires
        fits(lo, width),
        lo + width <= 32,
    ensures
        r == with_field(v as u64, lo, width, x),
{
    let w = v as u64;
    let f = (w & !(!(u64::MAX << width) << lo)) | ((x & !(u64::MAX << width)) << lo);
    assert(f <= 0xffff_ffff) by (bit_vector)
        requires
            f == (w & !(!(u64::MAX << width) << lo)) | ((x & !(u64::MAX << width)) << lo),
            w <= 0xffff_ffff,
            0 < width < 64,
            lo + width <= 32,
    ;
    f as u32
}

/// Writes a field of a 16-bit image.
pub fn set_field_u16(v: u16, lo: u64, width: u64, x: u64) -> (r: u16)
    requires
        fits(lo, width),
        lo + width <= 16,
    ensures
        r == with_field(v as u64, lo, width, x),
{
    let w = v as u64;
    let f = (w & !(!(u64::MAX << width) << lo)) | ((x & !(u64::MAX << width)) << lo);
    assert(f <= 0xffff) by (bit_vector)
        requires
            f == (w & !(!(u64::MAX << width) << lo)) | ((x & !(u64::MAX << width)) << lo),
            w <= 0xffff,
            0 < width < 64,
            lo + width <= 16,
    ;
    f as u16
}

/// Writes a field of an 8-bit image.
pub fn set_field_u8(v: u8, lo: u64, width: u64, x: u64) -> (r: u8)
    requires
        fits(lo, width),
        lo + width <= 8,
    ensures
        r == with_field(v as u64, lo, width, x),
{
    let w = v as u64;
    let f = (w & !(!(u64::MAX << width) << lo)) | ((x & !(u64::MAX << width)) << lo);
    assert(f <= 0xff) by (bit_vector)
        requires
            f == (w & !(!(u64::MAX << width) << lo)) | ((x & !(u64::MAX << width)) << lo),
            w <= 0xff,
            0 < width < 64,
            lo + width <= 8,
    ;
    f as u8
}

/// Writes one bit of a 16-bit image.
pub fn set_bit_u16(v: u16, b: u64, s: State) -> (r: u16)
    requires
        b < 16,
    ensures
        r == with_bit(v as u64, b, s.is_set()),
{
    let w = v as u64;
    let f = set_bit(w, b, s);
    assert((w | (1u64 << b)) <= 0xffff && (w & !(1u64 << b)) <= 0xffff) by (bit_vector)
        requires
            w <= 0xffff,
            b < 16,
    ;
    f as u16
}

/// Writes one bit of an 8-bit image.
pub fn set_bit_u8(v: u8, b: u64, s: State) -> (r: u8)
    requires
        b < 8,
    ensures
        r == with_bit(v as u64, b, s.is_set()),
{
    let w = v as u64;
    let f = set_bit(w, b, s);
    assert((w | (1u64 << b)) <= 0xff && (w & !(1u64 << b)) <= 0xff) by (bit_vector)
        requires
            w <= 0xff,
            b < 8,
    ;
    f as u8
}

/// The masks of the field widths used by the architectural layouts.
pub proof fn lemma_low_mask_values()
    ensures
        low_mask(1) == 0x1,
        low_mask(2) == 0x3,
        low_mask(3) == 0x7,
        low_mask(4) == 0xf,
        low_mask(5) == 0x1f,
        low_mask(6) == 0x3f,
        low_mask(7) == 0x7f,
        low_mask(8) == 0xff,
        low_mask(9) == 0x1ff,
        low_mask(10) == 0x3ff,
        low_mask(11) == 0x7ff,
        low_mask(12) == 0xfff,
        low_mask(13) == 0x1fff,
        low_mask(14) == 0x3fff,
        low_mask(15) == 0x7fff,
        low_mask(16) == 0xffff,
        low_mask(17) == 0x1ffff,
        low_mask(18) == 0x3ffff,
        low_mask(19) == 0x7ffff,
        low_mask(20) == 0xfffff,
        low_mask(21) == 0x1fffff,
        low_mask(22) == 0x3fffff,
        low_mask(23) == 0x7fffff,
        low_mask(24) == 0xffffff,
        low_mask(25) == 0x1ffffff,
        low_mask(26) == 0x3ffffff,
        low_mask(27) == 0x7ffffff,
        low_mask(28) == 0xfffffff,
        low_mask(29) == 0x1fffffff,
        low_mask(30) == 0x3fffffff,
        low_mask(31) == 0x7fffffff,
        low_mask(32) == 0xffffffff,
        low_mask(33) == 0x1ffffffff,
        low_mask(34) == 0x3ffffffff,
        low_mask(35) == 0x7ffffffff,
        low_mask(36) == 0xfffffffff,
        low_mask(37) == 0x1fffffffff,
        low_mask(38) == 0x3fffffffff,
        low_mask(39) == 0x7fffffffff,
        low_mask(40) == 0xffffffffff,
        low_mask(41) == 0x1ffffffffff,
        low_mask(42) == 0x3ffffffffff,
        low_mask(43) == 0x7ffffffffff,
        low_mask(44) == 0xfffffffffff,
        low_mask(45) == 0x1fffffffffff,
        low_mask(46) == 0x3fffffffffff,
        low_mask(47) == 0x7fffffffffff,
        low_mask(48) == 0xffffffffffff,
        low_mask(49) == 0x1ffffffffffff,
        low_mask(50) == 0x3ffffffffffff,
        low_mask(51) == 0x7ffffffffffff,
        low_mask(52) == 0xfffffffffffff,
{
    assert(!(u64::MAX << 1u64) == 0x1u64 && !(u64::MAX << 2u64) == 0x3u64 && !(u64::MAX << 3u64) == 0x7u64 && !(u64::MAX << 4u64) == 0xfu64 && !(u64::MAX << 5u64) == 0x1fu64 && !(u64::MAX << 6u64) == 0x3fu64 && !(u64::MAX << 7u64) == 0x7fu64 && !(u64::MAX << 8u64) == 0xffu64 && !(u64::MAX << 9u64) == 0x1ffu64 && !(u64::MAX << 10u64) == 0x3ffu64 && !(u64::MAX << 11u64) == 0x7ffu64 && !(u64::MAX << 12u64) == 0xfffu64 && !(u64::MAX << 13u64) == 0x1fffu64 && !(u64::MAX << 14u64) == 0x3fffu64 && !(u64::MAX << 15u64) == 0x7fffu64 && !(u64::MAX << 16u64) == 0xffffu64 && !(u64::MAX << 17u64) == 0x1ffffu64 && !(u64::MAX << 18u64) == 0x3ffffu64 && !(u64::MAX << 19u64) == 0x7ffffu64 && !(u64::MAX << 20u64) == 0xfffffu64 && !(u64::MAX << 21u64) == 0x1fffffu64 && !(u64::MAX << 22u64) == 0x3fffffu64 && !(u64::MAX << 23u64) == 0x7fffffu64 && !(u64::MAX << 24u64) == 0xffffffu64 && !(u64::MAX << 25u64) == 0x1ffffffu64 && !(u64::MAX << 26u64) == 0x3ffffffu64 && !(u64::MAX << 27u64) == 0x7ffffffu64 && !(u64::MAX << 28u64) == 0xfffffffu64 && !(u64::MAX << 29u64) == 0x1fffffffu64 && !(u64::MAX << 30u64) == 0x3fffffffu64 && !(u64::MAX << 31u64) == 0x7fffffffu64 && !(u64::MAX << 32u64) == 0xffffffffu64 && !(u64::MAX << 33u64) == 0x1ffffffffu64 && !(u64::MAX << 34u64) == 0x3ffffffffu64 && !(u64::MAX << 35u64) == 0x7ffffffffu64 && !(u64::MAX << 36u64) == 0xfffffffffu64 && !(u64::MAX << 37u64) == 0x1fffffffffu64 && !(u64::MAX << 38u64) == 0x3fffffffffu64 && !(u64::MAX << 39u64) == 0x7fffffffffu64 && !(u64::MAX << 40u64) == 0xffffffffffu64 && !(u64::MAX << 41u64) == 0x1ffffffffffu64 && !(u64::MAX << 42u64) == 0x3ffffffffffu64 && !(u64::MAX << 43u64) == 0x7ffffffffffu64 && !(u64::MAX << 44u64) == 0xfffffffffffu64 && !(u64::MAX << 45u64) == 0x1fffffffffffu64 && !(u64::MAX << 46u64) == 0x3fffffffffffu64 && !(u64::MAX << 47u64) == 0x7fffffffffffu64 && !(u64::MAX << 48u64) == 0xffffffffffffu64 && !(u64::MAX << 49u64) == 0x1ffffffffffffu64 && !(u64::MAX << 50u64) == 0x3ffffffffffffu64 && !(u64::MAX << 51u64) == 0x7ffffffffffffu64 && !(u64::MAX << 52u64) == 0xfffffffffffffu64) by (bit_vector);
}

/// A field never exceeds the mask of its width.
pub proof fn lemma_field_bound(v: u64, lo: u64, width: u64)
    requires
        fits(lo, width),
    ensures
        field_of(v, lo, width) <= low_mask(width),
{
    assert(((v >> lo) & !(u64::MAX << width)) <= !(u64::MAX << width)) by (bit_vector);
}

/// The zero image has every field zero and every bit clear.
pub proof fn lemma_zero_image(lo: u64, width: u64, b: u64)
    requires
        fits(lo, width),
        b < 64,
    ensures
        field_of(0, lo, width) == 0,
        !bit_of(0, b),
{
    assert(((0u64 >> lo) & !(u64::MAX << width)) == 0u64 && ((0u64 >> b) & 1u64) != 1u64)
        by (bit_vector);
}

/// Masking a value that already fits a width changes nothing.
pub proof fn lemma_mask_fitting(x: u64, width: u64)
    requires
        0 < width < 64,
        x <= low_mask(width),
    ensures
        x & low_mask(width) == x,
{
    assert(x & !(u64::MAX << width) == x) by (bit_vector)
        requires
            x <= !(u64::MAX << width),
    ;
}

/// Reading a written field gives back the written value, truncated to the
/// field width.
pub proof fn lemma_get_set_same(v: u64, lo: u64, width: u64, x: u64)
    requires
        fits(lo, width),
    ensures
        field_of(with_field(v, lo, width, x), lo, width) == x & low_mask(width),
{
    assert(((((v & !(!(u64::MAX << width) << lo)) | ((x & !(u64::MAX << width)) << lo)) >> lo)
        & !(u64::MAX << width)) == x & !(u64::MAX << width)) by (bit_vector)
        requires
            0 < width < 64,
            lo + width <= 64,
    ;
}

/// Writing a field leaves every disjoint field unchanged.
pub proof fn lemma_get_set_other(v: u64, lo: u64, width: u64, x: u64, lo2: u64, width2: u64)
    requires
        fits(lo, width),
        fits(lo2, width2),
        disjoint(lo, width, lo2, width2),
    ensures
        field_of(with_field(v, lo, width, x), lo2, width2) == field_of(v, lo2, width2),
{
    assert(((((v & !(!(u64::MAX << width) << lo)) | ((x & !(u64::MAX << width)) << lo)) >> lo2)
        & !(u64::MAX << width2)) == ((v >> lo2) & !(u64::MAX << width2))) by (bit_vector)
        requires
            0 < width < 64,
            lo + width <= 64,
            0 < width2 < 64,
            lo2 + width2 <= 64,
            lo + width <= lo2 || lo2 + width2 <= lo,
    ;
}

/// Writing back the value a field holds changes nothing.
pub proof fn lemma_set_get_identity(v: u64, lo: u64, width: u64)
    requires
        fits(lo, width),
    ensures
        with_field(v, lo, width, field_of(v, lo, width)) == v,
{
    assert(((v & !(!(u64::MAX << width) << lo)) | ((((v >> lo) & !(u64::MAX << width))
        & !(u64::MAX << width)) << lo)) == v) by (bit_vector)
        requires
            0 < width < 64,
            lo + width <= 64,
    ;
}

/// Reading a written bit gives back the written state.
pub proof fn lemma_bit_set_same(v: u64, b: u64, s: bool)
    requires
        b < 64,
    ensures
        bit_of(with_bit(v, b, s), b) == s,
{
    assert((((v | (1u64 << b)) >> b) & 1u64) == 1u64 && (((v & !(1u64 << b)) >> b) & 1u64)
        != 1u64) by (bit_vector)
        requires
            b < 64,
    ;
}

/// Writing a bit leaves every other bit unchanged.
pub proof fn lemma_bit_set_other(v: u64, b: u64, s: bool, c: u64)
    requires
        b < 64,
        c < 64,
        b != c,
    ensures
        bit_of(with_bit(v, b, s), c) == bit_of(v, c),
{
    assert((((v | (1u64 << b)) >> c) & 1u64) == ((v >> c) & 1u64) && (((v & !(1u64 << b)) >> c)
        & 1u64) == ((v >> c) & 1u64)) by (bit_vector)
        requires
            b < 64,
            c < 64,
            b != c,
    ;
}

/// Writing a bit outside a field leaves the field unchanged.
pub proof fn lemma_bit_set_field(v: u64, b: u64, s: bool, lo: u64, width: u64)
    requires
        b < 64,
        fits(lo, width),
        disjoint(b, 1, lo, width),
    ensures
        field_of(with_bit(v, b, s), lo, width) == field_of(v, lo, width),
{
    assert((((v | (1u64 << b)) >> lo) & !(u64::MAX << width)) == ((v >> lo) & !(u64::MAX
        << width)) && (((v & !(1u64 << b)) >> lo) & !(u64::MAX << width)) == ((v >> lo) & !(
    u64::MAX << width))) by (bit_vector)
        requires
            b < 64,
            0 < width < 64,
            lo + width <= 64,
            b + 1 <= lo || lo + width <= b,
    ;
}

/// Writing a field leaves every bit outside it unchanged.
pub proof fn lemma_field_set_bit(v: u64, lo: u64, width: u64, x: u64, b: u64)
    requires
        b < 64,
        fits(lo, width),
        disjoint(b, 1, lo, width),
    ensures
        bit_of(with_field(v, lo, width, x), b) == bit_of(v, b),
{
    assert(((((v & !(!(u64::MAX << width) << lo)) | ((x & !(u64::MAX << width)) << lo)) >> b)
        & 1u64) == ((v >> b) & 1u64)) by (bit_vector)
        requires
            b < 64,
            0 < width < 64,
            lo + width <= 64,
            b + 1 <= lo || lo + width <= b,
    ;
}

/// A bit is the one-bit field at its position.
pub proof fn lemma_bit_is_field(v: u64, b: u64)
    requires
        b < 64,
    ensures
        bit_of(v, b) == (field_of(v, b, 1) == 1),
        field_of(v, b, 1) <= 1,
{
    assert((((v >> b) & 1u64) == 1u64) == (((v >> b) & !(u64::MAX << 1u64)) == 1u64) && ((v >> b)
        & !(u64::MAX << 1u64)) <= 1u64) by (bit_vector);
}

/// The little-endian byte image of a 64-bit value, as it is stored in memory.
pub fn u64_le_bytes(v: u64) -> (r: [u8; 8])
    ensures
        r@ == vstd::bytes::spec_u64_to_le_bytes(v),
{
    let r: [u8; 8] = [
        (v & 0xff) as u8,
        ((v >> 8) & 0xff) as u8,
        ((v >> 16) & 0xff) as u8,
        ((v >> 24) & 0xff) as u8,
        ((v >> 32) & 0xff) as u8,
        ((v >> 40) & 0xff) as u8,
        ((v >> 48) & 0xff) as u8,
        ((v >> 56) & 0xff) as u8,
    ];
    proof {
        vstd::bytes::spec_u64_to_le_bytes_to_open(v);
        assert(r@ =~= vstd::bytes::spec_u64_to_le_bytes_open(v));
    }
    r
}

/// The little-endian bytes of a 16-bit value.
pub open spec fn le_u16(x: u16) -> Seq<u8> {
    seq![(x & 0xff) as u8, ((x >> 8u16) & 0xff) as u8]
}

/// The little-endian bytes of a 32-bit value.
pub open spec fn le_u32(x: u32) -> Seq<u8> {
    seq![
        (x & 0xff) as u8,
        ((x >> 8u32) & 0xff) as u8,
        ((x >> 16u32) & 0xff) as u8,
        ((x >> 24u32) & 0xff) as u8,
    ]
}

/// Appends the little-endian bytes of a 16-bit value.
pub fn push_le_u16(out: &mut Vec<u8>, x: u16)
    ensures
        final(out)@ == old(out)@ + le_u16(x),
{
    out.push((x & 0xff) as u8);
    out.push(((x >> 8u16) & 0xff) as u8);
    assert(out@ =~= old(out)@ + le_u16(x));
}

/// Appends the little-endian bytes of a 32-bit value.
pub fn push_le_u32(out: &mut Vec<u8>, x: u32)
    ensures
        final(out)@ == old(out)@ + le_u32(x),
{
    out.push((x & 0xff) as u8);
    out.push(((x >> 8u32) & 0xff) as u8);
    out.push(((x >> 16u32) & 0xff) as u8);
    out.push(((x >> 24u32) & 0xff) as u8);
    assert(out@ =~= old(out)@ + le_u32(x));
}

} // verus!
