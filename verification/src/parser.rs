use vstd::prelude::*;

use crate::error::{ErrorModel, GgufError};
use crate::file::{spec_tensor_data, GgufFile, GgufFileModel};
use crate::header::{parse_header, spec_header};
use crate::metadata::{alignment_of, metadata_model, read_metadata, spec_alignment, spec_metadata};
use crate::reader::Reader;
use crate::tensor_info::{read_tensor_infos, spec_tensor_infos, tensors_model};
use crate::types::HEADER_LEN;

verus! {

/// `p` rounded up to the next multiple of `a`.
pub open spec fn round_up(p: int, a: int) -> int {
    if p % a == 0 {
        p
    } else {
        p + (a - p % a)
    }
}

/// Where the tensor-data section starts: the end of the tensor infos,
/// rounded up to the alignment.
pub open spec fn spec_data_start(end_of_infos: int, alignment: u64) -> Result<usize, ErrorModel> {
    let start = round_up(end_of_infos, alignment as int);
    if start > usize::MAX {
        Err(ErrorModel::DataOffsetOverflow)
    } else {
        Ok(start as usize)
    }
}

/// The first error among the data ranges of the first `n` tensors, in file order.
pub open spec fn first_tensor_error(f: GgufFileModel, n: nat) -> Option<ErrorModel>
    decreases n,
{
    if n == 0 {
        None
    } else {
        match first_tensor_error(f, (n - 1) as nat) {
            Some(e) => Some(e),
            None => match spec_tensor_data(f, f.tensors[n - 1]) {
                Err(e) => Some(e),
                Ok(_) => None,
            },
        }
    }
}

/// What parsing a whole buffer gives: header, metadata entries, tensor
/// infos, alignment, start of the data section; it is refused when the
/// data section would start past the end, or when a tensor's data range
/// does not lie inside the buffer.
pub open spec fn spec_parse(buf: Seq<u8>) -> Result<GgufFileModel, ErrorModel> {
    match spec_header(buf) {
        Err(e) => Err(e),
        Ok(header) => match spec_metadata(buf, HEADER_LEN as int, header.metadata_kv_count as nat) {
            Err(e) => Err(e),
            Ok((metadata, p1)) => match spec_tensor_infos(buf, p1, header.tensor_count as nat) {
                Err(e) => Err(e),
                Ok((tensors, p2)) => match spec_alignment(metadata) {
                    Err(e) => Err(e),
                    Ok(alignment) => match spec_data_start(p2, alignment) {
                        Err(e) => Err(e),
                        Ok(data_start) => if data_start > buf.len() {
                            Err(ErrorModel::TruncatedBeforeData)
                        } else {
                            let f = GgufFileModel {
                                header,
                                metadata,
                                tensors,
                                alignment,
                                data_start,
                                data: buf,
                            };
                            match first_tensor_error(f, tensors.len()) {
                                Some(e) => Err(e),
                                None => Ok(f),
                            }
                        },
                    },
                },
            },
        },
    }
}

/// Once one of the first `k` tensors has a bad range, the first error among
/// more tensors is that same one.
pub proof fn lemma_first_tensor_error_stays(f: GgufFileModel, k: nat, n: nat)
    requires
        k <= n,
        first_tensor_error(f, k) is Some,
    ensures
        first_tensor_error(f, n) == first_tensor_error(f, k),
    decreases n - k,
{
    if k < n {
        lemma_first_tensor_error_stays(f, k, (n - 1) as nat);
    }
}

/// The end of the tensor infos rounded up to the alignment.
fn data_section_start(end_of_infos: usize, alignment: u64) -> (res: Result<usize, GgufError>)
    requires
        alignment > 0,
    ensures
        match spec_data_start(end_of_infos as int, alignment) {
            Ok(s) => res == Ok::<usize, GgufError>(s),
            Err(e) => res is Err && res->Err_0@ == e,
        },
{
    let p = end_of_infos as u64;
    let rem = p % alignment;
    let start = if rem == 0 {
        p
    } else {
        match p.checked_add(alignment - rem) {
            Some(s) => s,
            None => return Err(GgufError::DataOffsetOverflow),
        }
    };
    if start > usize::MAX as u64 {
        return Err(GgufError::DataOffsetOverflow);
    }
    Ok(start as usize)
}

/// Parser for GGUF format files.
pub struct GgufParser;

impl GgufParser {
    /// Parse a GGUF file from an owned byte buffer. Malformed or truncated
    /// input is refused with the first error that the grammar meets.
    pub fn parse(data: Vec<u8>) -> (res: Result<GgufFile, GgufError>)
        ensures
            match spec_parse(data@) {
                Ok(m) => res is Ok && res->Ok_0@ == m,
                Err(e) => res is Err && res->Err_0@ == e,
            },
    {
        let header = match parse_header(data.as_slice()) {
            Ok(h) => h,
            Err(e) => return Err(e),
        };
        let mut r = Reader { buf: data.as_slice(), pos: HEADER_LEN };
        let metadata = match read_metadata(&mut r, header.metadata_kv_count) {
            Ok(m) => m,
            Err(e) => return Err(e),
        };
        let tensors = match read_tensor_infos(&mut r, header.tensor_count) {
            Ok(t) => t,
            Err(e) => return Err(e),
        };
        let end_of_infos = r.pos;
        let alignment = match alignment_of(&metadata) {
            Ok(a) => a,
            Err(e) => return Err(e),
        };
        let data_start = match data_section_start(end_of_infos, alignment) {
            Ok(s) => s,
            Err(e) => return Err(e),
        };
        if data_start > data.len() {
            return Err(GgufError::TruncatedBeforeData);
        }
        let ghost buf = data@;
        let file = GgufFile::from_parts(header, metadata, tensors, alignment, data_start, data);
        let n = file.tensors.len();
        let mut i: usize = 0;
        // Validate that every tensor's data lies within the file.
        while i < n
            invariant
                i <= n,
                n == file.tensors@.len(),
                file@.tensors == tensors_model(file.tensors@),
                first_tensor_error(file@, i as nat) is None,
                buf == data@,
                spec_parse(buf) == match first_tensor_error(file@, n as nat) {
                    Some(e) => Err(e),
                    None => Ok::<GgufFileModel, ErrorModel>(file@),
                },
            decreases n - i,
        {
            assert(file.tensors@[i as int]@ == file@.tensors[i as int]);
            match file.tensor_data(&file.tensors[i]) {
                Ok(_) => {},
                Err(e) => {
                    proof {
                        lemma_first_tensor_error_stays(file@, (i + 1) as nat, n as nat);
                    }
                    return Err(e);
                },
            }
            i = i + 1;
        }
        Ok(file)
    }
}

} // verus!
