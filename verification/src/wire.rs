//! Big-endian byte order, in which multi-byte fields travel.

use vstd::prelude::*;

verus! {

/// The two bytes of `value`, most significant first.
pub open spec fn u16_be_bytes(value: u16) -> Seq<u8> {
    seq![(value / 0x100) as u8, (value % 0x100) as u8]
}

/// The four bytes of `value`, most significant first.
pub open spec fn u32_be_bytes(value: u32) -> Seq<u8> {
    seq![
        (value / 0x100_0000) as u8,
        (value / 0x1_0000 % 0x100) as u8,
        (value / 0x100 % 0x100) as u8,
        (value % 0x100) as u8,
    ]
}

/// The value whose two bytes, most significant first, are `bytes`.
pub open spec fn u16_of_be_bytes(bytes: Seq<u8>) -> u16
    recommends
        bytes.len() == 2,
{
    (bytes[0] as int * 0x100 + bytes[1] as int) as u16
}

/// The value whose four bytes, most significant first, are `bytes`.
pub open spec fn u32_of_be_bytes(bytes: Seq<u8>) -> u32
    recommends
        bytes.len() == 4,
{
    (bytes[0] as int * 0x100_0000 + bytes[1] as int * 0x1_0000 + bytes[2] as int * 0x100
        + bytes[3] as int) as u32
}

/// Splits a 16-bit value into its bytes, most significant first.
pub fn u16_to_be(value: u16) -> (bytes: [u8; 2])
    ensures
        bytes@ == u16_be_bytes(value),
{
    let bytes: [u8; 2] = [(value / 0x100) as u8, (value % 0x100) as u8];
    assert(bytes@ =~= u16_be_bytes(value));
    bytes
}

/// Joins two bytes, most significant first, into a 16-bit value.
pub fn u16_from_be(bytes: [u8; 2]) -> (value: u16)
    ensures
        value == u16_of_be_bytes(bytes@),
        value == bytes[0] as int * 0x100 + bytes[1] as int,
{
    let hi: u16 = bytes[0] as u16;
    let lo: u16 = bytes[1] as u16;
    hi * 0x100 + lo
}

/// Splits a 32-bit value into its bytes, most significant first.
pub fn u32_to_be(value: u32) -> (bytes: [u8; 4])
    ensures
        bytes@ == u32_be_bytes(value),
{
    let bytes: [u8; 4] = [
        (value / 0x100_0000) as u8,
        (value / 0x1_0000 % 0x100) as u8,
        (value / 0x100 % 0x100) as u8,
        (value % 0x100) as u8,
    ];
    assert(bytes@ =~= u32_be_bytes(value));
    bytes
}

/// Joins four bytes, most significant first, into a 32-bit value.
pub fn u32_from_be(bytes: [u8; 4]) -> (value: u32)
    ensures
        value == u32_of_be_bytes(bytes@),
        value == bytes[0] as int * 0x100_0000 + bytes[1] as int * 0x1_0000 + bytes[2] as int
            * 0x100 + bytes[3] as int,
{
    let b0: u32 = bytes[0] as u32;
    let b1: u32 = bytes[1] as u32;
    let b2: u32 = bytes[2] as u32;
    let b3: u32 = bytes[3] as u32;
    b0 * 0x100_0000 + b1 * 0x1_0000 + b2 * 0x100 + b3
}

/// Splitting a 16-bit value and joining the bytes gives the value back, and
/// joining two bytes and splitting the value gives the bytes back.
pub proof fn lemma_u16_be_round_trip(value: u16, bytes: Seq<u8>)
    ensures
        u16_be_bytes(value).len() == 2,
        u16_of_be_bytes(u16_be_bytes(value)) == value,
        bytes.len() == 2 ==> u16_be_bytes(u16_of_be_bytes(bytes)) == bytes,
{
    if bytes.len() == 2 {
        assert(u16_be_bytes(u16_of_be_bytes(bytes)) =~= bytes);
    }
}

/// Splitting a 32-bit value and joining the bytes gives the value back, and
/// joining four bytes and splitting the value gives the bytes back.
pub proof fn lemma_u32_be_round_trip(value: u32, bytes: Seq<u8>)
    ensures
        u32_be_bytes(value).len() == 4,
        u32_of_be_bytes(u32_be_bytes(value)) == value,
        bytes.len() == 4 ==> u32_be_bytes(u32_of_be_bytes(bytes)) == bytes,
{
    assert(value == (value / 0x100_0000) * 0x100_0000 + (value / 0x1_0000 % 0x100) * 0x1_0000 + (
    value / 0x100 % 0x100) * 0x100 + value % 0x100) by (bit_vector);
    assert(value / 0x100_0000 < 0x100) by (bit_vector);
    if bytes.len() == 4 {
        let b0 = bytes[0];
        let b1 = bytes[1];
        let b2 = bytes[2];
        let b3 = bytes[3];
        let joined = u32_of_be_bytes(bytes);
        assert(joined == b0 as int * 0x100_0000 + b1 as int * 0x1_0000 + b2 as int * 0x100
            + b3 as int);
        assert(joined / 0x100_0000 == b0 && joined / 0x1_0000 % 0x100 == b1 && joined / 0x100
            % 0x100 == b2 && joined % 0x100 == b3) by (bit_vector)
            requires
                joined == b0 as int * 0x100_0000 + b1 as int * 0x1_0000 + b2 as int * 0x100
                    + b3 as int,
        ;
        assert(u32_be_bytes(joined) =~= bytes);
    }
}

} // verus!
