//! The echo transform: every received byte is answered by its successor
//! modulo 256.

use vstd::prelude::*;

verus! {

/// The byte that answers `byte`: `(byte + 1) mod 256`.
pub open spec fn echoed(byte: u8) -> u8 {
    ((byte as int + 1) % 256) as u8
}

/// Computes the byte that answers `byte`, wrapping from `0xFF` to `0x00`.
pub fn echo(byte: u8) -> (out: u8)
    ensures
        out == echoed(byte),
        out as int == (byte as int + 1) % 256,
{
    byte.wrapping_add(1)
}

/// The answers to `bytes`, one for one and in the same order.
pub open spec fn echoed_all(bytes: Seq<u8>) -> Seq<u8> {
    Seq::new(bytes.len(), |i: int| echoed(bytes[i]))
}

/// The transform never answers a byte with itself, and it wraps: only `0xFF`
/// is answered by `0x00`, every other byte by the next larger one.
pub proof fn echoed_is_successor(byte: u8)
    ensures
        echoed(byte) != byte,
        byte == 0xFF ==> echoed(byte) == 0x00,
        byte < 0xFF ==> echoed(byte) == byte + 1,
{
}

/// Distinct bytes get distinct answers.
pub proof fn echoed_is_injective(a: u8, b: u8)
    requires
        echoed(a) == echoed(b),
    ensures
        a == b,
{
}

} // verus!
