//! Integers in a blob of bytes, in the byte order of the file.

use crate::model::ByteOrder;
use vstd::prelude::*;

verus! {

/// The 16-bit number whose two bytes start at `offset`.
pub open spec fn spec_u16_at(data: Seq<u8>, offset: int, order: ByteOrder) -> int {
    match order {
        ByteOrder::Little => data[offset] + 0x100 * data[offset + 1],
        ByteOrder::Big => 0x100 * data[offset] + data[offset + 1],
    }
}

/// The 32-bit number whose four bytes start at `offset`.
pub open spec fn spec_u32_at(data: Seq<u8>, offset: int, order: ByteOrder) -> int {
    match order {
        ByteOrder::Little => spec_u16_at(data, offset, order) + 0x1_0000 * spec_u16_at(
            data,
            offset + 2,
            order,
        ),
        ByteOrder::Big => 0x1_0000 * spec_u16_at(data, offset, order) + spec_u16_at(
            data,
            offset + 2,
            order,
        ),
    }
}

/// The 64-bit number whose eight bytes start at `offset`.
pub open spec fn spec_u64_at(data: Seq<u8>, offset: int, order: ByteOrder) -> int {
    match order {
        ByteOrder::Little => spec_u32_at(data, offset, order) + 0x1_0000_0000 * spec_u32_at(
            data,
            offset + 4,
            order,
        ),
        ByteOrder::Big => 0x1_0000_0000 * spec_u32_at(data, offset, order) + spec_u32_at(
            data,
            offset + 4,
            order,
        ),
    }
}

/// Reads the 16-bit number whose two bytes start at `offset`, if they lie
/// inside the blob.
pub fn u16_at(data: &[u8], offset: usize, order: ByteOrder) -> (r: Option<u16>)
    ensures
        r is Some <==> offset + 2 <= data@.len(),
        r matches Some(v) ==> v == spec_u16_at(data@, offset as int, order),
{
    if data.len() < 2 || offset > data.len() - 2 {
        return None;
    }
    let a = data[offset] as u16;
    let b = data[offset + 1] as u16;
    match order {
        ByteOrder::Little => Some(a + 0x100 * b),
        ByteOrder::Big => Some(0x100 * a + b),
    }
}

/// Reads the 32-bit number whose four bytes start at `offset`, if they lie
/// inside the blob.
pub fn u32_at(data: &[u8], offset: usize, order: ByteOrder) -> (r: Option<u32>)
    ensures
        r is Some <==> offset + 4 <= data@.len(),
        r matches Some(v) ==> v == spec_u32_at(data@, offset as int, order),
{
    if data.len() < 4 || offset > data.len() - 4 {
        return None;
    }
    let a = match u16_at(data, offset, order) {
        Some(a) => a as u32,
        None => {
            return None;
        },
    };
    let b = match u16_at(data, offset + 2, order) {
        Some(b) => b as u32,
        None => {
            return None;
        },
    };
    match order {
        ByteOrder::Little => Some(a + 0x1_0000 * b),
        ByteOrder::Big => Some(0x1_0000 * a + b),
    }
}

/// Reads the 64-bit number whose eight bytes start at `offset`, if they lie
/// inside the blob.
pub fn u64_at(data: &[u8], offset: usize, order: ByteOrder) -> (r: Option<u64>)
    ensures
        r is Some <==> offset + 8 <= data@.len(),
        r matches Some(v) ==> v == spec_u64_at(data@, offset as int, order),
{
    if data.len() < 8 || offset > data.len() - 8 {
        return None;
    }
    let a = match u32_at(data, offset, order) {
        Some(a) => a as u64,
        None => {
            return None;
        },
    };
    let b = match u32_at(data, offset + 4, order) {
        Some(b) => b as u64,
        None => {
            return None;
        },
    };
    match order {
        ByteOrder::Little => Some(a + 0x1_0000_0000 * b),
        ByteOrder::Big => Some(0x1_0000_0000 * a + b),
    }
}

} // verus!
