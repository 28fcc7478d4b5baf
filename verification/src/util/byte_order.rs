//! Byte order of encoded numeric values.

use vstd::prelude::*;

pub use self::ByteOrder::{BigEndian as BE, LittleEndian as LE};

verus! {

/// Specifies the order of bytes within an encoded numeric value.
#[derive(Clone, Copy, PartialEq, Eq, Structural, Debug)]
pub enum ByteOrder {
    /// Little-endian byte order: least to most significant.
    LittleEndian,
    /// Big-endian byte order: most to least significant.
    BigEndian,
}

/// The byte order of the machine that runs the code.
pub open spec fn native_order() -> ByteOrder {
    match vstd::endian::endianness() {
        vstd::endian::Endian::Little => ByteOrder::LittleEndian,
        vstd::endian::Endian::Big => ByteOrder::BigEndian,
    }
}

/// Whether the machine that runs the code is little-endian.
pub open spec fn machine_is_little() -> bool {
    vstd::endian::endianness() is Little
}

/// `x` as it reads in byte order `ord`: unchanged when `ord` is the
/// machine's own order, else with its bytes reversed.
pub open spec fn in_order<T: Endian>(x: T, ord: ByteOrder) -> T {
    if ord == native_order() {
        x
    } else {
        x.swapped()
    }
}

/// Conversion of integers between the machine's byte order and a given one.
pub trait Endian: Sized {
    /// The value with its bytes in reverse order.
    spec fn swapped(self) -> Self;

    /// Reversing the bytes twice gives the value back.
    proof fn lemma_swapped_twice(x: Self)
        ensures
            x.swapped().swapped() == x,
    ;

    /// Converts `self` from the machine's byte order to the given byte order.
    fn to_order(self, ord: ByteOrder) -> (r: Self)
        ensures
            r == (if ord == native_order() {
                self
            } else {
                self.swapped()
            }),
    ;

    /// Converts a value from the given byte order to the machine's byte order.
    fn from_order(ord: ByteOrder, x: Self) -> (r: Self)
        ensures
            r == (if ord == native_order() {
                x
            } else {
                x.swapped()
            }),
    ;
}

/// `x` with its two bytes swapped.
pub open spec fn swap_u16(x: u16) -> u16 {
    ((x & 0xff) << 8u16) | (x >> 8u16)
}

/// `x` with its four bytes in reverse order.
pub open spec fn swap_u32(x: u32) -> u32 {
    ((x & 0xff) << 24u32) | ((x & 0xff00) << 8u32) | ((x >> 8u32) & 0xff00) | (x >> 24u32)
}

/// `x` with its eight bytes in reverse order.
pub open spec fn swap_u64(x: u64) -> u64 {
    ((x & 0xff) << 56u64) | ((x & 0xff00) << 40u64) | ((x & 0xff0000) << 24u64) | ((x
        & 0xff000000) << 8u64) | ((x >> 8u64) & 0xff000000) | ((x >> 24u64) & 0xff0000) | ((x
        >> 40u64) & 0xff00) | (x >> 56u64)
}

/// `x` with the bytes of its machine word in reverse order.
pub open spec fn swap_usize(x: usize) -> usize {
    if usize::BITS == 32 {
        swap_u32(x as u32) as usize
    } else {
        swap_u64(x as u64) as usize
    }
}

/// `x` with its two bytes swapped.
pub open spec fn swap_i16(x: i16) -> i16 {
    swap_u16(x as u16) as i16
}

/// `x` with its four bytes in reverse order.
pub open spec fn swap_i32(x: i32) -> i32 {
    swap_u32(x as u32) as i32
}

/// `x` with its eight bytes in reverse order.
pub open spec fn swap_i64(x: i64) -> i64 {
    swap_u64(x as u64) as i64
}

/// `x` with the bytes of its machine word in reverse order.
pub open spec fn swap_isize(x: isize) -> isize {
    swap_usize(x as usize) as isize
}

/// Calls `u16::to_le`, which converts a value from the machine's byte order to
/// little-endian: unchanged on a little-endian machine, bytes reversed otherwise.
#[verifier::external_body]
fn u16_to_le(x: u16) -> (r: u16)
    ensures
        r == (if machine_is_little() { x } else { swap_u16(x) }),
{
    x.to_le()
}

/// Calls `u16::to_be`, which converts a value from the machine's byte order to
/// big-endian: unchanged on a big-endian machine, bytes reversed otherwise.
#[verifier::external_body]
fn u16_to_be(x: u16) -> (r: u16)
    ensures
        r == (if !machine_is_little() { x } else { swap_u16(x) }),
{
    x.to_be()
}

/// Calls `u16::from_le`, which converts a little-endian value to the machine's byte
/// order: unchanged on a little-endian machine, bytes reversed otherwise.
#[verifier::external_body]
fn u16_from_le(x: u16) -> (r: u16)
    ensures
        r == (if machine_is_little() { x } else { swap_u16(x) }),
{
    u16::from_le(x)
}

/// Calls `u16::from_be`, which converts a big-endian value to the machine's byte
/// order: unchanged on a big-endian machine, bytes reversed otherwise.
#[verifier::external_body]
fn u16_from_be(x: u16) -> (r: u16)
    ensures
        r == (if !machine_is_little() { x } else { swap_u16(x) }),
{
    u16::from_be(x)
}

impl Endian for u16 {
    open spec fn swapped(self) -> Self {
        swap_u16(self)
    }

    proof fn lemma_swapped_twice(x: Self) {
        assert(swap_u16(swap_u16(x)) == x) by (bit_vector);
    }

    fn to_order(self, ord: ByteOrder) -> (r: Self) {
        match ord {
            LE => u16_to_le(self),
            BE => u16_to_be(self),
        }
    }

    fn from_order(ord: ByteOrder, x: Self) -> (r: Self) {
        match ord {
            LE => u16_from_le(x),
            BE => u16_from_be(x),
        }
    }
}

/// Calls `i16::to_le`, which converts a value from the machine's byte order to
/// little-endian: unchanged on a little-endian machine, bytes reversed otherwise.
#[verifier::external_body]
fn i16_to_le(x: i16) -> (r: i16)
    ensures
        r == (if machine_is_little() { x } else { swap_i16(x) }),
{
    x.to_le()
}

/// Calls `i16::to_be`, which converts a value from the machine's byte order to
/// big-endian: unchanged on a big-endian machine, bytes reversed otherwise.
#[verifier::external_body]
fn i16_to_be(x: i16) -> (r: i16)
    ensures
        r == (if !machine_is_little() { x } else { swap_i16(x) }),
{
    x.to_be()
}

/// Calls `i16::from_le`, which converts a little-endian value to the machine's byte
/// order: unchanged on a little-endian machine, bytes reversed otherwise.
#[verifier::external_body]
fn i16_from_le(x: i16) -> (r: i16)
    ensures
        r == (if machine_is_little() { x } else { swap_i16(x) }),
{
    i16::from_le(x)
}

/// Calls `i16::from_be`, which converts a big-endian value to the machine's byte
/// order: unchanged on a big-endian machine, bytes reversed otherwise.
#[verifier::external_body]
fn i16_from_be(x: i16) -> (r: i16)
    ensures
        r == (if !machine_is_little() { x } else { swap_i16(x) }),
{
    i16::from_be(x)
}

impl Endian for i16 {
    open spec fn swapped(self) -> Self {
        swap_i16(self)
    }

    proof fn lemma_swapped_twice(x: Self) {
        let y: u16 = x as u16;
        assert(swap_u16(swap_u16(y)) == y) by (bit_vector);
        assert((swap_u16(y) as i16) as u16 == swap_u16(y)) by (bit_vector);
        assert((swap_u16(swap_u16(y)) as i16) == x) by (bit_vector)
            requires
                y == x as u16,
                swap_u16(swap_u16(y)) == y,
        ;
    }

    fn to_order(self, ord: ByteOrder) -> (r: Self) {
        match ord {
            LE => i16_to_le(self),
            BE => i16_to_be(self),
        }
    }

    fn from_order(ord: ByteOrder, x: Self) -> (r: Self) {
        match ord {
            LE => i16_from_le(x),
            BE => i16_from_be(x),
        }
    }
}

/// Calls `u32::to_le`, which converts a value from the machine's byte order to
/// little-endian: unchanged on a little-endian machine, bytes reversed otherwise.
#[verifier::external_body]
fn u32_to_le(x: u32) -> (r: u32)
    ensures
        r == (if machine_is_little() { x } else { swap_u32(x) }),
{
    x.to_le()
}

/// Calls `u32::to_be`, which converts a value from the machine's byte order to
/// big-endian: unchanged on a big-endian machine, bytes reversed otherwise.
#[verifier::external_body]
fn u32_to_be(x: u32) -> (r: u32)
    ensures
        r == (if !machine_is_little() { x } else { swap_u32(x) }),
{
    x.to_be()
}

/// Calls `u32::from_le`, which converts a little-endian value to the machine's byte
/// order: unchanged on a little-endian machine, bytes reversed otherwise.
#[verifier::external_body]
fn u32_from_le(x: u32) -> (r: u32)
    ensures
        r == (if machine_is_little() { x } else { swap_u32(x) }),
{
    u32::from_le(x)
}

/// Calls `u32::from_be`, which converts a big-endian value to the machine's byte
/// order: unchanged on a big-endian machine, bytes reversed otherwise.
#[verifier::external_body]
fn u32_from_be(x: u32) -> (r: u32)
    ensures
        r == (if !machine_is_little() { x } else { swap_u32(x) }),
{
    u32::from_be(x)
}

impl Endian for u32 {
    open spec fn swapped(self) -> Self {
        swap_u32(self)
    }

    proof fn lemma_swapped_twice(x: Self) {
        assert(swap_u32(swap_u32(x)) == x) by (bit_vector);
    }

    fn to_order(self, ord: ByteOrder) -> (r: Self) {
        match ord {
            LE => u32_to_le(self),
            BE => u32_to_be(self),
        }
    }

    fn from_order(ord: ByteOrder, x: Self) -> (r: Self) {
        match ord {
            LE => u32_from_le(x),
            BE => u32_from_be(x),
        }
    }
}

/// Calls `i32::to_le`, which converts a value from the machine's byte order to
/// little-endian: unchanged on a little-endian machine, bytes reversed otherwise.
#[verifier::external_body]
fn i32_to_le(x: i32) -> (r: i32)
    ensures
        r == (if machine_is_little() { x } else { swap_i32(x) }),
{
    x.to_le()
}

/// Calls `i32::to_be`, which converts a value from the machine's byte order to
/// big-endian: unchanged on a big-endian machine, bytes reversed otherwise.
#[verifier::external_body]
fn i32_to_be(x: i32) -> (r: i32)
    ensures
        r == (if !machine_is_little() { x } else { swap_i32(x) }),
{
    x.to_be()
}

/// Calls `i32::from_le`, which converts a little-endian value to the machine's byte
/// order: unchanged on a little-endian machine, bytes reversed otherwise.
#[verifier::external_body]
fn i32_from_le(x: i32) -> (r: i32)
    ensures
        r == (if machine_is_little() { x } else { swap_i32(x) }),
{
    i32::from_le(x)
}

/// Calls `i32::from_be`, which converts a big-endian value to the machine's byte
/// order: unchanged on a big-endian machine, bytes reversed otherwise.
#[verifier::external_body]
fn i32_from_be(x: i32) -> (r: i32)
    ensures
        r == (if !machine_is_little() { x } else { swap_i32(x) }),
{
    i32::from_be(x)
}

impl Endian for i32 {
    open spec fn swapped(self) -> Self {
        swap_i32(self)
    }

    proof fn lemma_swapped_twice(x: Self) {
        let y: u32 = x as u32;
        assert(swap_u32(swap_u32(y)) == y) by (bit_vector);
        assert((swap_u32(y) as i32) as u32 == swap_u32(y)) by (bit_vector);
        assert((swap_u32(swap_u32(y)) as i32) == x) by (bit_vector)
            requires
                y == x as u32,
                swap_u32(swap_u32(y)) == y,
        ;
    }

    fn to_order(self, ord: ByteOrder) -> (r: Self) {
        match ord {
            LE => i32_to_le(self),
            BE => i32_to_be(self),
        }
    }

    fn from_order(ord: ByteOrder, x: Self) -> (r: Self) {
        match ord {
            LE => i32_from_le(x),
            BE => i32_from_be(x),
        }
    }
}

/// Calls `u64::to_le`, which converts a value from the machine's byte order to
/// little-endian: unchanged on a little-endian machine, bytes reversed otherwise.
#[verifier::external_body]
fn u64_to_le(x: u64) -> (r: u64)
    ensures
        r == (if machine_is_little() { x } else { swap_u64(x) }),
{
    x.to_le()
}

/// Calls `u64::to_be`, which converts a value from the machine's byte order to
/// big-endian: unchanged on a big-endian machine, bytes reversed otherwise.
#[verifier::external_body]
fn u64_to_be(x: u64) -> (r: u64)
    ensures
        r == (if !machine_is_little() { x } else { swap_u64(x) }),
{
    x.to_be()
}

/// Calls `u64::from_le`, which converts a little-endian value to the machine's byte
/// order: unchanged on a little-endian machine, bytes reversed otherwise.
#[verifier::external_body]
fn u64_from_le(x: u64) -> (r: u64)
    ensures
        r == (if machine_is_little() { x } else { swap_u64(x) }),
{
    u64::from_le(x)
}

/// Calls `u64::from_be`, which converts a big-endian value to the machine's byte
/// order: unchanged on a big-endian machine, bytes reversed otherwise.
#[verifier::external_body]
fn u64_from_be(x: u64) -> (r: u64)
    ensures
        r == (if !machine_is_little() { x } else { swap_u64(x) }),
{
    u64::from_be(x)
}

impl Endian for u64 {
    open spec fn swapped(self) -> Self {
        swap_u64(self)
    }

    proof fn lemma_swapped_twice(x: Self) {
        assert(swap_u64(swap_u64(x)) == x) by (bit_vector);
    }

    fn to_order(self, ord: ByteOrder) -> (r: Self) {
        match ord {
            LE => u64_to_le(self),
            BE => u64_to_be(self),
        }
    }

    fn from_order(ord: ByteOrder, x: Self) -> (r: Self) {
        match ord {
            LE => u64_from_le(x),
            BE => u64_from_be(x),
        }
    }
}

/// Calls `i64::to_le`, which converts a value from the machine's byte order to
/// little-endian: unchanged on a little-endian machine, bytes reversed otherwise.
#[verifier::external_body]
fn i64_to_le(x: i64) -> (r: i64)
    ensures
        r == (if machine_is_little() { x } else { swap_i64(x) }),
{
    x.to_le()
}

/// Calls `i64::to_be`, which converts a value from the machine's byte order to
/// big-endian: unchanged on a big-endian machine, bytes reversed otherwise.
#[verifier::external_body]
fn i64_to_be(x: i64) -> (r: i64)
    ensures
        r == (if !machine_is_little() { x } else { swap_i64(x) }),
{
    x.to_be()
}

/// Calls `i64::from_le`, which converts a little-endian value to the machine's byte
/// order: unchanged on a little-endian machine, bytes reversed otherwise.
#[verifier::external_body]
fn i64_from_le(x: i64) -> (r: i64)
    ensures
        r == (if machine_is_little() { x } else { swap_i64(x) }),
{
    i64::from_le(x)
}

/// Calls `i64::from_be`, which converts a big-endian value to the machine's byte
/// order: unchanged on a big-endian machine, bytes reversed otherwise.
#[verifier::external_body]
fn i64_from_be(x: i64) -> (r: i64)
    ensures
        r == (if !machine_is_little() { x } else { swap_i64(x) }),
{
    i64::from_be(x)
}

impl Endian for i64 {
    open spec fn swapped(self) -> Self {
        swap_i64(self)
    }

    proof fn lemma_swapped_twice(x: Self) {
        let y: u64 = x as u64;
        assert(swap_u64(swap_u64(y)) == y) by (bit_vector);
        assert((swap_u64(y) as i64) as u64 == swap_u64(y)) by (bit_vector);
        assert((swap_u64(swap_u64(y)) as i64) == x) by (bit_vector)
            requires
                y == x as u64,
                swap_u64(swap_u64(y)) == y,
        ;
    }

    fn to_order(self, ord: ByteOrder) -> (r: Self) {
        match ord {
            LE => i64_to_le(self),
            BE => i64_to_be(self),
        }
    }

    fn from_order(ord: ByteOrder, x: Self) -> (r: Self) {
        match ord {
            LE => i64_from_le(x),
            BE => i64_from_be(x),
        }
    }
}

/// Calls `usize::to_le`, which converts a value from the machine's byte order to
/// little-endian: unchanged on a little-endian machine, bytes reversed otherwise.
#[verifier::external_body]
fn usize_to_le(x: usize) -> (r: usize)
    ensures
        r == (if machine_is_little() { x } else { swap_usize(x) }),
{
    x.to_le()
}

/// Calls `usize::to_be`, which converts a value from the machine's byte order to
/// big-endian: unchanged on a big-endian machine, bytes reversed otherwise.
#[verifier::external_body]
fn usize_to_be(x: usize) -> (r: usize)
    ensures
        r == (if !machine_is_little() { x } else { swap_usize(x) }),
{
    x.to_be()
}

/// Calls `usize::from_le`, which converts a little-endian value to the machine's byte
/// order: unchanged on a little-endian machine, bytes reversed otherwise.
#[verifier::external_body]
fn usize_from_le(x: usize) -> (r: usize)
    ensures
        r == (if machine_is_little() { x } else { swap_usize(x) }),
{
    usize::from_le(x)
}

/// Calls `usize::from_be`, which converts a big-endian value to the machine's byte
/// order: unchanged on a big-endian machine, bytes reversed otherwise.
#[verifier::external_body]
fn usize_from_be(x: usize) -> (r: usize)
    ensures
        r == (if !machine_is_little() { x } else { swap_usize(x) }),
{
    usize::from_be(x)
}

impl Endian for usize {
    open spec fn swapped(self) -> Self {
        swap_usize(self)
    }

    proof fn lemma_swapped_twice(x: Self) {
        lemma_swap_usize_twice(x);
    }

    fn to_order(self, ord: ByteOrder) -> (r: Self) {
        match ord {
            LE => usize_to_le(self),
            BE => usize_to_be(self),
        }
    }

    fn from_order(ord: ByteOrder, x: Self) -> (r: Self) {
        match ord {
            LE => usize_from_le(x),
            BE => usize_from_be(x),
        }
    }
}

/// Calls `isize::to_le`, which converts a value from the machine's byte order to
/// little-endian: unchanged on a little-endian machine, bytes reversed otherwise.
#[verifier::external_body]
fn isize_to_le(x: isize) -> (r: isize)
    ensures
        r == (if machine_is_little() { x } else { swap_isize(x) }),
{
    x.to_le()
}

/// Calls `isize::to_be`, which converts a value from the machine's byte order to
/// big-endian: unchanged on a big-endian machine, bytes reversed otherwise.
#[verifier::external_body]
fn isize_to_be(x: isize) -> (r: isize)
    ensures
        r == (if !machine_is_little() { x } else { swap_isize(x) }),
{
    x.to_be()
}

/// Calls `isize::from_le`, which converts a little-endian value to the machine's byte
/// order: unchanged on a little-endian machine, bytes reversed otherwise.
#[verifier::external_body]
fn isize_from_le(x: isize) -> (r: isize)
    ensures
        r == (if machine_is_little() { x } else { swap_isize(x) }),
{
    isize::from_le(x)
}

/// Calls `isize::from_be`, which converts a big-endian value to the machine's byte
/// order: unchanged on a big-endian machine, bytes reversed otherwise.
#[verifier::external_body]
fn isize_from_be(x: isize) -> (r: isize)
    ensures
        r == (if !machine_is_little() { x } else { swap_isize(x) }),
{
    isize::from_be(x)
}

impl Endian for isize {
    open spec fn swapped(self) -> Self {
        swap_isize(self)
    }

    proof fn lemma_swapped_twice(x: Self) {
        let y: usize = x as usize;
        lemma_swap_usize_twice(y);
        lemma_usize_isize_round_trip(swap_usize(y));
        lemma_isize_usize_round_trip(x);
    }

    fn to_order(self, ord: ByteOrder) -> (r: Self) {
        match ord {
            LE => isize_to_le(self),
            BE => isize_to_be(self),
        }
    }

    fn from_order(ord: ByteOrder, x: Self) -> (r: Self) {
        match ord {
            LE => isize_from_le(x),
            BE => isize_from_be(x),
        }
    }
}

proof fn lemma_swap_usize_twice(x: usize)
    ensures
        swap_usize(swap_usize(x)) == x,
{
    if usize::BITS == 32 {
        let y: u32 = x as u32;
        assert(swap_u32(swap_u32(y)) == y) by (bit_vector);
        assert((x as u32) as usize == x);
        assert(((swap_u32(y) as usize) as u32) == swap_u32(y));
    } else {
        let y: u64 = x as u64;
        assert(swap_u64(swap_u64(y)) == y) by (bit_vector);
        assert((x as u64) as usize == x);
        assert(((swap_u64(y) as usize) as u64) == swap_u64(y));
    }
}

proof fn lemma_usize_isize_round_trip(x: usize)
    ensures
        (x as isize) as usize == x,
{
    assert((x as isize) as usize == x) by (bit_vector);
}

proof fn lemma_isize_usize_round_trip(x: isize)
    ensures
        (x as usize) as isize == x,
{
    assert((x as usize) as isize == x) by (bit_vector);
}

/// Converting to a byte order and back from it gives the value back.
pub proof fn law_round_trip<T: Endian>(x: T, ord: ByteOrder)
    ensures
        in_order(in_order(x, ord), ord) == x,
{
    T::lemma_swapped_twice(x);
}

/// Big-endian and little-endian forms of a value are each other's byte
/// reversal, whatever the machine's own order.
pub proof fn law_orders_are_reversals<T: Endian>(x: T)
    ensures
        in_order(x, ByteOrder::BigEndian) == in_order(x, ByteOrder::LittleEndian).swapped(),
        in_order(x, ByteOrder::LittleEndian) == in_order(x, ByteOrder::BigEndian).swapped(),
{
    T::lemma_swapped_twice(x);
}

} // verus!
