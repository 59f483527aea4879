//! The asset container: a directory of entries, each naming a
//! zero-terminated path and a stored byte range, expanded by the codec where
//! its stored and unpacked sizes differ.
use vstd::prelude::*;
use crate::bytes::{u32_le, read_u32_at, read_string_to_null, text_at};
use crate::codec::{CodecError, uncompresse, uncompressed};

verus! {

/// One directory entry.
#[derive(Debug, Clone, Copy, PartialEq, Eq, Structural)]
pub struct Info {
    pub name_offset: u32,
    pub offset: u32,
    pub size: u32,
    pub zsize: u32,
}

/// Why an entry could not be unpacked.
#[derive(Debug, Clone, Copy, PartialEq, Eq, Structural)]
pub enum ContainerError {
    /// The directory or a stored range runs past the end of the container.
    Truncated,
    /// An entry's name has no terminator or is not UTF-8.
    BadName,
    /// The codec refused the stored bytes.
    Codec(CodecError),
}

/// Entry `i` of the directory: four words from byte 16 on.
pub open spec fn entry_at(s: Seq<u8>, i: int) -> Info {
    let b = 16 + 16 * i;
    Info {
        name_offset: u32_le(s, b) as u32,
        offset: u32_le(s, b + 4) as u32,
        size: u32_le(s, b + 8) as u32,
        zsize: u32_le(s, b + 12) as u32,
    }
}

/// Reads the directory: the entry count at byte 8, then the entries.
pub fn parse_directory(data: &[u8]) -> (r: Result<Vec<Info>, ContainerError>)
    ensures
        r is Ok <==> data@.len() >= 12 && (u32_le(data@, 8) == 0 || 16 + 16 * u32_le(data@, 8) <= data@.len()),
        r is Ok ==> r.unwrap()@.len() == u32_le(data@, 8) && forall|i: int|
            0 <= i < r.unwrap()@.len() ==> #[trigger] r.unwrap()@[i] == entry_at(data@, i),
{
    let files = match read_u32_at(data, 8) {
        Some(n) => n,
        None => return Err(ContainerError::Truncated),
    };
    let mut infos: Vec<Info> = Vec::new();
    let mut i: u32 = 0;
    while i < files
        invariant
            files == u32_le(data@, 8),
            data@.len() >= 12,
            i <= files,
            i > 0 ==> 16 + 16 * i <= data@.len(),
            infos@.len() == i,
            forall|k: int| 0 <= k < i ==> #[trigger] infos@[k] == entry_at(data@, k),
        decreases files - i,
    {
        let b: u64 = 16 + 16 * (i as u64);
        let name_offset = match read_u32_at(data, b) {
            Some(v) => v,
            None => return Err(ContainerError::Truncated),
        };
        let offset = match read_u32_at(data, b + 4) {
            Some(v) => v,
            None => return Err(ContainerError::Truncated),
        };
        let size = match read_u32_at(data, b + 8) {
            Some(v) => v,
            None => return Err(ContainerError::Truncated),
        };
        let zsize = match read_u32_at(data, b + 12) {
            Some(v) => v,
            None => return Err(ContainerError::Truncated),
        };
        infos.push(Info { name_offset, offset, size, zsize });
        i = i + 1;
    }
    Ok(infos)
}

/// The entry's path.
pub fn entry_name(data: &[u8], info: &Info) -> (r: Result<String, ContainerError>)
    ensures
        r is Ok <==> text_at(data@, info.name_offset as int) is Some,
        r is Ok ==> r.unwrap()@ == text_at(data@, info.name_offset as int).unwrap().0,
{
    let mut p = info.name_offset as usize;
    match read_string_to_null(data, &mut p) {
        Some(s) => Ok(s),
        None => Err(ContainerError::BadName),
    }
}

/// What an entry holds: its stored bytes as they are where the two sizes
/// agree, else those bytes expanded.
pub open spec fn unpacked(s: Seq<u8>, info: Info) -> Result<Seq<u8>, ContainerError> {
    let stored = s.subrange(info.offset as int, info.offset + info.zsize);
    if info.offset + info.zsize > s.len() {
        Err(ContainerError::Truncated)
    } else if info.size == info.zsize {
        Ok(stored)
    } else {
        match uncompressed(stored, info.size as int) {
            Ok(out) => Ok(out),
            Err(e) => Err(ContainerError::Codec(e)),
        }
    }
}

/// Unpacks an entry.
pub fn entry_bytes(data: &[u8], info: &Info) -> (r: Result<Vec<u8>, ContainerError>)
    ensures
        match unpacked(data@, *info) {
            Ok(out) => r is Ok && r.unwrap()@ == out,
            Err(e) => r == Err::<Vec<u8>, ContainerError>(e),
        },
{
    let start = info.offset as usize;
    let len = info.zsize as usize;
    if start > data.len() || len > data.len() - start {
        return Err(ContainerError::Truncated);
    }
    let mut stored: Vec<u8> = Vec::new();
    let mut k: usize = 0;
    while k < len
        invariant
            start <= data.len(),
            len <= data.len() - start,
            start + len <= data@.len(),
            data@.len() == data.len(),
            k <= len,
            stored@ == data@.subrange(start as int, start + k),
        decreases len - k,
    {
        stored.push(data[start + k]);
        k = k + 1;
        assert(stored@ =~= data@.subrange(start as int, start + k));
    }
    if info.size == info.zsize {
        return Ok(stored);
    }
    match uncompresse(&stored, info.size) {
        Ok(out) => Ok(out),
        Err(e) => Err(ContainerError::Codec(e)),
    }
}

} // verus!
