//! Values of a fixed byte layout, all integers little-endian.

use vstd::prelude::*;

verus! {

/// The unsigned 16-bit integer at offset `at` of `s`, low byte first.
pub open spec fn le_u16(s: Seq<u8>, at: int) -> u16 {
    (s[at] as int + s[at + 1] as int * 0x100) as u16
}

/// The unsigned 32-bit integer at offset `at` of `s`, low byte first.
pub open spec fn le_u32(s: Seq<u8>, at: int) -> u32 {
    (le_u16(s, at) as int + le_u16(s, at + 2) as int * 0x1_0000) as u32
}

/// The unsigned 64-bit integer at offset `at` of `s`, low byte first.
pub open spec fn le_u64(s: Seq<u8>, at: int) -> u64 {
    (le_u32(s, at) as int + le_u32(s, at + 4) as int * 0x1_0000_0000) as u64
}

/// A plain value that occupies a fixed number of bytes and is decoded from
/// them without any check of what they hold.
pub trait FixedLayout: Sized {
    /// How many bytes a value occupies.
    spec fn layout_size() -> nat;

    /// The value that `bytes` hold, where there are `layout_size()` of them.
    spec fn decode(bytes: Seq<u8>) -> Self;

    /// How many bytes a value occupies.
    fn size() -> (n: usize)
        ensures
            n == Self::layout_size(),
    ;

    /// Decodes a value from exactly its bytes.
    fn from_bytes(bytes: &[u8]) -> (v: Self)
        requires
            bytes@.len() == Self::layout_size(),
        ensures
            v == Self::decode(bytes@),
    ;
}

/// Decodes the unsigned 16-bit integer at offset `at`.
pub fn u16_at(bytes: &[u8], at: usize) -> (v: u16)
    requires
        at + 2 <= bytes@.len(),
    ensures
        v == le_u16(bytes@, at as int),
{
    bytes[at] as u16 + bytes[at + 1] as u16 * 0x100
}

/// Decodes the unsigned 32-bit integer at offset `at`.
pub fn u32_at(bytes: &[u8], at: usize) -> (v: u32)
    requires
        at + 4 <= bytes@.len(),
    ensures
        v == le_u32(bytes@, at as int),
{
    let len = bytes.len();
    u16_at(bytes, at) as u32 + u16_at(bytes, at + 2) as u32 * 0x1_0000
}

/// Decodes the unsigned 64-bit integer at offset `at`.
pub fn u64_at(bytes: &[u8], at: usize) -> (v: u64)
    requires
        at + 8 <= bytes@.len(),
    ensures
        v == le_u64(bytes@, at as int),
{
    let len = bytes.len();
    u32_at(bytes, at) as u64 + u32_at(bytes, at + 4) as u64 * 0x1_0000_0000
}

impl FixedLayout for u8 {
    open spec fn layout_size() -> nat {
        1
    }

    open spec fn decode(bytes: Seq<u8>) -> u8 {
        bytes[0]
    }

    fn size() -> (n: usize) {
        1
    }

    fn from_bytes(bytes: &[u8]) -> (v: u8) {
        bytes[0]
    }
}

impl FixedLayout for u16 {
    open spec fn layout_size() -> nat {
        2
    }

    open spec fn decode(bytes: Seq<u8>) -> u16 {
        le_u16(bytes, 0)
    }

    fn size() -> (n: usize) {
        2
    }

    fn from_bytes(bytes: &[u8]) -> (v: u16) {
        u16_at(bytes, 0)
    }
}

impl FixedLayout for u32 {
    open spec fn layout_size() -> nat {
        4
    }

    open spec fn decode(bytes: Seq<u8>) -> u32 {
        le_u32(bytes, 0)
    }

    fn size() -> (n: usize) {
        4
    }

    fn from_bytes(bytes: &[u8]) -> (v: u32) {
        u32_at(bytes, 0)
    }
}

impl FixedLayout for u64 {
    open spec fn layout_size() -> nat {
        8
    }

    open spec fn decode(bytes: Seq<u8>) -> u64 {
        le_u64(bytes, 0)
    }

    fn size() -> (n: usize) {
        8
    }

    fn from_bytes(bytes: &[u8]) -> (v: u64) {
        u64_at(bytes, 0)
    }
}

} // verus!
