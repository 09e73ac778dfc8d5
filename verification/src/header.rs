use vstd::prelude::*;

use crate::error::{ErrorModel, GgufError};
use crate::reader::{le_u32, le_u64};
use crate::types::{GgufHeader, HEADER_LEN};

verus! {

/// The buffer starts with the ASCII bytes `GGUF`.
pub open spec fn has_gguf_magic(buf: Seq<u8>) -> bool {
    &&& buf.len() >= 4
    &&& buf[0] == 0x47u8
    &&& buf[1] == 0x47u8
    &&& buf[2] == 0x55u8
    &&& buf[3] == 0x46u8
}

/// The header that the first 24 bytes of `buf` hold: magic, `u32` version,
/// `u64` tensor count and `u64` metadata count, all little-endian.
pub open spec fn spec_header(buf: Seq<u8>) -> Result<GgufHeader, ErrorModel> {
    if buf.len() < HEADER_LEN {
        Err(ErrorModel::HeaderTooShort)
    } else if !has_gguf_magic(buf) {
        Err(ErrorModel::BadMagic)
    } else if le_u32(buf, 4) < 2 || le_u32(buf, 4) > 3 {
        Err(ErrorModel::UnsupportedVersion(le_u32(buf, 4) as u32))
    } else {
        Ok(
            GgufHeader {
                version: le_u32(buf, 4) as u32,
                tensor_count: le_u64(buf, 8) as u64,
                metadata_kv_count: le_u64(buf, 16) as u64,
            },
        )
    }
}

fn read_le_u32(data: &[u8], p: usize) -> (r: u32)
    requires
        p + 4 <= data@.len(),
    ensures
        r == le_u32(data@, p as int),
{
    data[p] as u32 + (data[p + 1] as u32) * 0x100 + (data[p + 2] as u32) * 0x1_0000 + (data[p + 3]
        as u32) * 0x100_0000
}

fn read_le_u64(data: &[u8], p: usize) -> (r: u64)
    requires
        p + 8 <= data@.len(),
    ensures
        r == le_u64(data@, p as int),
{
    let lo = data[p] as u64 + (data[p + 1] as u64) * 0x100 + (data[p + 2] as u64) * 0x1_0000
        + (data[p + 3] as u64) * 0x100_0000;
    let hi = data[p + 4] as u64 + (data[p + 5] as u64) * 0x100 + (data[p + 6] as u64) * 0x1_0000
        + (data[p + 7] as u64) * 0x100_0000;
    lo + hi * 0x1_0000_0000
}

/// Parse a GGUF header (magic, version, tensor count, metadata count) from
/// the first 24 bytes of a buffer. Only versions 2 and 3 are accepted.
pub fn parse_header(data: &[u8]) -> (res: Result<GgufHeader, GgufError>)
    ensures
        match spec_header(data@) {
            Ok(h) => res == Ok::<GgufHeader, GgufError>(h),
            Err(e) => res is Err && res->Err_0@ == e,
        },
{
    if data.len() < HEADER_LEN {
        return Err(GgufError::HeaderTooShort);
    }
    if !(data[0] == 0x47 && data[1] == 0x47 && data[2] == 0x55 && data[3] == 0x46) {
        return Err(GgufError::BadMagic);
    }
    let version = read_le_u32(data, 4);
    if version < 2 || version > 3 {
        return Err(GgufError::UnsupportedVersion(version));
    }
    let tensor_count = read_le_u64(data, 8);
    let metadata_kv_count = read_le_u64(data, 16);
    Ok(GgufHeader { version, tensor_count, metadata_kv_count })
}

} // verus!
