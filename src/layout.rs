use vstd::prelude::*;

verus! {

/// The value of four bytes read in little-endian order.
pub open spec fn le_u32(b: Seq<u8>) -> u32
    recommends
        b.len() == 4,
{
    (b[0] as int + b[1] as int * 0x100 + b[2] as int * 0x1_0000 + b[3] as int * 0x100_0000) as u32
}

/// The value of two bytes read in little-endian order.
pub open spec fn le_u16(b: Seq<u8>) -> u16
    recommends
        b.len() == 2,
{
    (b[0] as int + b[1] as int * 0x100) as u16
}

/// The value of eight bytes read in little-endian order.
pub open spec fn le_u64(b: Seq<u8>) -> u64
    recommends
        b.len() == 8,
{
    (le_u32(b.subrange(0, 4)) as int + le_u32(b.subrange(4, 8)) as int * 0x1_0000_0000) as u64
}

/// The two's-complement reading of the `bits`-bit unsigned value `v`.
pub open spec fn twos_complement(v: int, bits: nat) -> int {
    if v < vstd::arithmetic::power2::pow2((bits - 1) as nat) {
        v
    } else {
        v - vstd::arithmetic::power2::pow2(bits)
    }
}

/// Relies on zerocopy's `FromBytes::read_from_bytes` for `U32<LittleEndian>`
/// (it succeeds exactly when the slice holds four bytes) and on `U32::get`
/// (which is `u32::from_le_bytes` of those bytes).
#[verifier::external_body]
fn read_le_word(b: &[u8]) -> (r: Option<u32>)
    ensures
        b@.len() == 4 ==> r == Some(le_u32(b@)),
        b@.len() != 4 ==> r is None,
{
    match <zerocopy::byteorder::U32<
        zerocopy::byteorder::LittleEndian,
    > as zerocopy::FromBytes>::read_from_bytes(b) {
        Ok(w) => Some(w.get()),
        Err(_) => None,
    }
}

/// Relies on zerocopy's `FromBytes::read_from_bytes` for `U16<LittleEndian>` (it succeeds
/// exactly when the slice holds 2 bytes) and on its `get`, which decodes
/// them in little-endian order.
#[verifier::external_body]
fn read_le_u16(b: &[u8]) -> (r: Option<u16>)
    ensures
        b@.len() == 2 ==> r == Some(le_u16(b@)),
        b@.len() != 2 ==> r is None,
{
    match <zerocopy::byteorder::U16<
        zerocopy::byteorder::LittleEndian,
    > as zerocopy::FromBytes>::read_from_bytes(b) {
        Ok(w) => Some(w.get()),
        Err(_) => None,
    }
}

/// Relies on zerocopy's `FromBytes::read_from_bytes` for `U64<LittleEndian>` (it succeeds
/// exactly when the slice holds 8 bytes) and on its `get`, which decodes
/// them in little-endian order.
#[verifier::external_body]
fn read_le_u64(b: &[u8]) -> (r: Option<u64>)
    ensures
        b@.len() == 8 ==> r == Some(le_u64(b@)),
        b@.len() != 8 ==> r is None,
{
    match <zerocopy::byteorder::U64<
        zerocopy::byteorder::LittleEndian,
    > as zerocopy::FromBytes>::read_from_bytes(b) {
        Ok(w) => Some(w.get()),
        Err(_) => None,
    }
}

/// Relies on zerocopy's `FromBytes::read_from_bytes` for `I16<LittleEndian>` (it succeeds
/// exactly when the slice holds 2 bytes) and on its `get`, which decodes
/// them in little-endian order.
#[verifier::external_body]
fn read_le_i16(b: &[u8]) -> (r: Option<i16>)
    ensures
        b@.len() == 2 ==> r == Some(twos_complement(le_u16(b@) as int, 16) as i16),
        b@.len() != 2 ==> r is None,
{
    match <zerocopy::byteorder::I16<
        zerocopy::byteorder::LittleEndian,
    > as zerocopy::FromBytes>::read_from_bytes(b) {
        Ok(w) => Some(w.get()),
        Err(_) => None,
    }
}

/// Relies on zerocopy's `FromBytes::read_from_bytes` for `I32<LittleEndian>` (it succeeds
/// exactly when the slice holds 4 bytes) and on its `get`, which decodes
/// them in little-endian order.
#[verifier::external_body]
fn read_le_i32(b: &[u8]) -> (r: Option<i32>)
    ensures
        b@.len() == 4 ==> r == Some(twos_complement(le_u32(b@) as int, 32) as i32),
        b@.len() != 4 ==> r is None,
{
    match <zerocopy::byteorder::I32<
        zerocopy::byteorder::LittleEndian,
    > as zerocopy::FromBytes>::read_from_bytes(b) {
        Ok(w) => Some(w.get()),
        Err(_) => None,
    }
}

/// Relies on zerocopy's `FromBytes::read_from_bytes` for `I64<LittleEndian>` (it succeeds
/// exactly when the slice holds 8 bytes) and on its `get`, which decodes
/// them in little-endian order.
#[verifier::external_body]
fn read_le_i64(b: &[u8]) -> (r: Option<i64>)
    ensures
        b@.len() == 8 ==> r == Some(twos_complement(le_u64(b@) as int, 64) as i64),
        b@.len() != 8 ==> r is None,
{
    match <zerocopy::byteorder::I64<
        zerocopy::byteorder::LittleEndian,
    > as zerocopy::FromBytes>::read_from_bytes(b) {
        Ok(w) => Some(w.get()),
        Err(_) => None,
    }
}

/// Relies on zerocopy's `FromBytes::read_from_bytes` for `i8` (it succeeds
/// exactly when the slice holds one byte, whose bits it reinterprets).
#[verifier::external_body]
fn read_i8(b: &[u8]) -> (r: Option<i8>)
    ensures
        b@.len() == 1 ==> r == Some(twos_complement(b@[0] as int, 8) as i8),
        b@.len() != 1 ==> r is None,
{
    match <i8 as zerocopy::FromBytes>::read_from_bytes(b) {
        Ok(v) => Some(v),
        Err(_) => None,
    }
}

/// Decodes a little-endian word from exactly four bytes.
pub(crate) fn decode_word(b: &[u8]) -> (r: u32)
    requires
        b@.len() == 4,
    ensures
        r == le_u32(b@),
{
    match read_le_word(b) {
        Some(w) => w,
        None => 0,
    }
}

/// A type whose value can be decoded directly from the bytes of the target
/// process: plain data, or a pointer into the target.
pub trait PtrReadable: Sized {
    /// The number of bytes the value occupies in the target.
    spec fn layout_size() -> nat;

    /// The value that a run of `layout_size()` bytes encodes.
    spec fn from_layout(bytes: Seq<u8>) -> Self;

    fn byte_size() -> (r: u32)
        ensures
            r as nat == Self::layout_size(),
    ;

    fn decode(bytes: &[u8]) -> (r: Self)
        requires
            bytes@.len() == Self::layout_size(),
        ensures
            r == Self::from_layout(bytes@),
    ;
}

impl PtrReadable for u8 {
    open spec fn layout_size() -> nat {
        1
    }

    open spec fn from_layout(bytes: Seq<u8>) -> u8 {
        bytes[0]
    }

    fn byte_size() -> (r: u32) {
        1
    }

    fn decode(bytes: &[u8]) -> (r: u8) {
        bytes[0]
    }
}

impl PtrReadable for u32 {
    open spec fn layout_size() -> nat {
        4
    }

    open spec fn from_layout(bytes: Seq<u8>) -> u32 {
        le_u32(bytes)
    }

    fn byte_size() -> (r: u32) {
        4
    }

    fn decode(bytes: &[u8]) -> (r: u32) {
        decode_word(bytes)
    }
}

impl PtrReadable for u16 {
    open spec fn layout_size() -> nat {
        2
    }

    open spec fn from_layout(bytes: Seq<u8>) -> u16 {
        le_u16(bytes)
    }

    fn byte_size() -> (r: u32) {
        2
    }

    fn decode(bytes: &[u8]) -> (r: u16) {
        match read_le_u16(bytes) {
            Some(v) => v,
            None => 0,
        }
    }
}

impl PtrReadable for u64 {
    open spec fn layout_size() -> nat {
        8
    }

    open spec fn from_layout(bytes: Seq<u8>) -> u64 {
        le_u64(bytes)
    }

    fn byte_size() -> (r: u32) {
        8
    }

    fn decode(bytes: &[u8]) -> (r: u64) {
        match read_le_u64(bytes) {
            Some(v) => v,
            None => 0,
        }
    }
}

impl PtrReadable for i8 {
    open spec fn layout_size() -> nat {
        1
    }

    open spec fn from_layout(bytes: Seq<u8>) -> i8 {
        twos_complement(bytes[0] as int, 8) as i8
    }

    fn byte_size() -> (r: u32) {
        1
    }

    fn decode(bytes: &[u8]) -> (r: i8) {
        match read_i8(bytes) {
            Some(v) => v,
            None => 0,
        }
    }
}

impl PtrReadable for i16 {
    open spec fn layout_size() -> nat {
        2
    }

    open spec fn from_layout(bytes: Seq<u8>) -> i16 {
        twos_complement(le_u16(bytes) as int, 16) as i16
    }

    fn byte_size() -> (r: u32) {
        2
    }

    fn decode(bytes: &[u8]) -> (r: i16) {
        match read_le_i16(bytes) {
            Some(v) => v,
            None => 0,
        }
    }
}

impl PtrReadable for i32 {
    open spec fn layout_size() -> nat {
        4
    }

    open spec fn from_layout(bytes: Seq<u8>) -> i32 {
        twos_complement(le_u32(bytes) as int, 32) as i32
    }

    fn byte_size() -> (r: u32) {
        4
    }

    fn decode(bytes: &[u8]) -> (r: i32) {
        match read_le_i32(bytes) {
            Some(v) => v,
            None => 0,
        }
    }
}

impl PtrReadable for i64 {
    open spec fn layout_size() -> nat {
        8
    }

    open spec fn from_layout(bytes: Seq<u8>) -> i64 {
        twos_complement(le_u64(bytes) as int, 64) as i64
    }

    fn byte_size() -> (r: u32) {
        8
    }

    fn decode(bytes: &[u8]) -> (r: i64) {
        match read_le_i64(bytes) {
            Some(v) => v,
            None => 0,
        }
    }
}

} // verus!
