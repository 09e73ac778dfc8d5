use vstd::prelude::*;
use vstd::slice::slice_subrange;

use crate::error::{ErrorModel, GgufError};
use crate::metadata::{
    find_key, first_key_index, lemma_first_key_index, metadata_model, str_eq, EntryModel,
};
use crate::reader::{le_u16, le_u32};
use crate::tensor_info::tensors_model;
use crate::types::{spec_data_size, GgmlType, GgufHeader, GgufTensorInfo, TensorInfoModel};
use crate::value::GgufValue;

verus! {

/// The mathematical content of a parsed file.
pub struct GgufFileModel {
    pub header: GgufHeader,
    pub metadata: Seq<EntryModel>,
    pub tensors: Seq<TensorInfoModel>,
    pub alignment: u64,
    pub data_start: usize,
    pub data: Seq<u8>,
}

/// A fully parsed GGUF file: header, metadata, tensor infos, and the raw file
/// bytes for tensor-data access.
#[derive(Debug, Clone)]
pub struct GgufFile {
    /// Parsed header.
    pub header: GgufHeader,
    /// Metadata key/value pairs, in file order.
    pub metadata: Vec<(String, GgufValue)>,
    /// Tensor infos, in file order.
    pub tensors: Vec<GgufTensorInfo>,
    /// Alignment of the data section (`general.alignment`, default 32).
    pub alignment: u64,
    /// Absolute file offset where the tensor-data section starts.
    pub data_start: usize,
    /// The complete file contents, readable through `raw()` and not
    /// replaceable byte by byte.
    pub data: FileBytes,
}

/// The bytes a file was parsed from. They can be read but not changed, so
/// they stay in step with the offsets parsed from them.
#[derive(Debug, Clone)]
pub struct FileBytes {
    bytes: Vec<u8>,
}

impl View for FileBytes {
    type V = Seq<u8>;

    closed spec fn view(&self) -> Seq<u8> {
        self.bytes@
    }
}

impl FileBytes {
    /// Keep `bytes` as a file's contents.
    pub(crate) fn new(bytes: Vec<u8>) -> (res: FileBytes)
        ensures
            res@ == bytes@,
    {
        FileBytes { bytes }
    }

    /// The bytes.
    pub fn as_slice(&self) -> (res: &[u8])
        ensures
            res@ == self@,
    {
        self.bytes.as_slice()
    }
}

impl View for GgufFile {
    type V = GgufFileModel;

    open spec fn view(&self) -> GgufFileModel {
        GgufFileModel {
            header: self.header,
            metadata: metadata_model(self.metadata@),
            tensors: tensors_model(self.tensors@),
            alignment: self.alignment,
            data_start: self.data_start,
            data: self.data@,
        }
    }
}

/// The least tensor offset greater than `x`, if any tensor has one.
pub open spec fn next_offset_after(ts: Seq<TensorInfoModel>, x: u64) -> Option<u64>
    decreases ts.len(),
{
    if ts.len() == 0 {
        None
    } else {
        let prev = next_offset_after(ts.drop_last(), x);
        let o = ts.last().offset;
        if o > x {
            match prev {
                Some(m) => Some(if o < m { o } else { m }),
                None => Some(o),
            }
        } else {
            prev
        }
    }
}

/// The next offset is the least tensor offset greater than `x`; there is
/// none when no tensor offset is greater than `x`.
pub proof fn lemma_next_offset_after(ts: Seq<TensorInfoModel>, x: u64)
    ensures
        match next_offset_after(ts, x) {
            Some(m) => m > x && (exists|i: int| 0 <= i < ts.len() && ts[i].offset == m) && (forall|i: int|
                0 <= i < ts.len() && ts[i].offset > x ==> m <= ts[i].offset),
            None => forall|i: int| 0 <= i < ts.len() ==> ts[i].offset <= x,
        },
    decreases ts.len(),
{
    if ts.len() > 0 {
        let init = ts.drop_last();
        lemma_next_offset_after(init, x);
        assert forall|i: int| 0 <= i < ts.len() - 1 implies init[i] == ts[i] by {}
        match next_offset_after(init, x) {
            Some(m) => {
                let i = choose|i: int| 0 <= i < init.len() && init[i].offset == m;
                assert(ts[i].offset == m);
            },
            None => {},
        }
    }
}

/// The byte range `start..start + size` of a tensor,
/// when it ends inside a file of `len` bytes.
pub open spec fn spec_extent(name: Seq<char>, start: int, size: int, len: int) -> Result<(int, int), ErrorModel> {
    if start + size > usize::MAX {
        Err(ErrorModel::TensorExtentOverflow)
    } else if start + size > len {
        Err(
            ErrorModel::TensorOutOfRange {
                name,
                start: start as usize,
                end: (start + size) as usize,
                file_len: len as usize,
            },
        )
    } else {
        Ok((start, start + size))
    }
}

/// The byte range of a tensor's data in the file. Its start is
/// `data_start + offset`. For element types with a known size the range is
/// exactly the data size; otherwise it spans to the next larger tensor
/// offset, or to the end of the file when there is none.
pub open spec fn spec_tensor_data(f: GgufFileModel, t: TensorInfoModel) -> Result<(int, int), ErrorModel> {
    let start = f.data_start + t.offset;
    if start > usize::MAX {
        Err(ErrorModel::TensorOffsetOverflow)
    } else {
        match spec_data_size(t) {
            Some(size) => if size > usize::MAX {
                Err(ErrorModel::TensorSizeOverflow)
            } else {
                spec_extent(t.name, start, size as int, f.data.len() as int)
            },
            None => match next_offset_after(f.tensors, t.offset) {
                Some(next) => if next - t.offset > usize::MAX {
                    Err(ErrorModel::TensorSizeOverflow)
                } else {
                    spec_extent(t.name, start, next - t.offset, f.data.len() as int)
                },
                None => spec_extent(
                    t.name,
                    start,
                    if f.data.len() > start { f.data.len() - start } else { 0 },
                    f.data.len() as int,
                ),
            },
        }
    }
}

/// Index of the first tensor named `name`.
pub open spec fn first_tensor_index(ts: Seq<TensorInfoModel>, name: Seq<char>) -> Option<int>
    decreases ts.len(),
{
    if ts.len() == 0 {
        None
    } else {
        match first_tensor_index(ts.drop_last(), name) {
            Some(i) => Some(i),
            None => if ts.last().name == name {
                Some(ts.len() - 1)
            } else {
                None
            },
        }
    }
}

/// The first index is the least one whose name matches, and none matches
/// when there is no first index.
pub proof fn lemma_first_tensor_index(ts: Seq<TensorInfoModel>, name: Seq<char>)
    ensures
        match first_tensor_index(ts, name) {
            Some(i) => 0 <= i < ts.len() && ts[i].name == name && forall|j: int|
                0 <= j < i ==> ts[j].name != name,
            None => forall|j: int| 0 <= j < ts.len() ==> ts[j].name != name,
        },
    decreases ts.len(),
{
    if ts.len() > 0 {
        lemma_first_tensor_index(ts.drop_last(), name);
        assert forall|j: int| 0 <= j < ts.len() - 1 implies ts.drop_last()[j] == ts[j] by {}
    }
}

/// The little-endian 32-bit words of a byte sequence; trailing bytes that
/// do not fill a word are left out.
pub open spec fn words32(b: Seq<u8>) -> Seq<u32> {
    Seq::new(b.len() / 4, |i: int| le_u32(b, 4 * i) as u32)
}

/// The little-endian 16-bit words of a byte sequence; a trailing odd byte is
/// left out.
pub open spec fn words16(b: Seq<u8>) -> Seq<u16> {
    Seq::new(b.len() / 2, |i: int| le_u16(b, 2 * i) as u16)
}

/// The raw bit patterns of a floating-point tensor's elements.
pub enum FloatBits {
    /// IEEE-754 single-precision bit patterns.
    F32(Vec<u32>),
    /// IEEE-754 half-precision bit patterns.
    F16(Vec<u16>),
}

/// The least offset greater than `x` among the tensors' offsets.
fn next_offset(tensors: &Vec<GgufTensorInfo>, x: u64) -> (res: Option<u64>)
    ensures
        res == next_offset_after(tensors_model(tensors@), x),
{
    let ghost ts = tensors_model(tensors@);
    let mut best: Option<u64> = None;
    let mut i: usize = 0;
    while i < tensors.len()
        invariant
            i <= tensors.len(),
            ts == tensors_model(tensors@),
            best == next_offset_after(ts.take(i as int), x),
        decreases tensors.len() - i,
    {
        assert(ts.take(i + 1).drop_last() =~= ts.take(i as int));
        assert(ts.take(i + 1).last() == ts[i as int]);
        let o = tensors[i].offset;
        if o > x {
            best = match best {
                Some(m) => Some(if o < m { o } else { m }),
                None => Some(o),
            };
        }
        i = i + 1;
    }
    assert(ts.take(tensors.len() as int) =~= ts);
    best
}

fn read_word32(b: &[u8], p: usize) -> (r: u32)
    requires
        p + 4 <= b@.len(),
    ensures
        r == le_u32(b@, p as int),
{
    b[p] as u32 + (b[p + 1] as u32) * 0x100 + (b[p + 2] as u32) * 0x1_0000 + (b[p + 3] as u32)
        * 0x100_0000
}

fn read_word16(b: &[u8], p: usize) -> (r: u16)
    requires
        p + 2 <= b@.len(),
    ensures
        r == le_u16(b@, p as int),
{
    b[p] as u16 + (b[p + 1] as u16) * 0x100
}

impl GgufFile {
    /// Put together a file from its parsed parts and its bytes.
    pub(crate) fn from_parts(
        header: GgufHeader,
        metadata: Vec<(String, GgufValue)>,
        tensors: Vec<GgufTensorInfo>,
        alignment: u64,
        data_start: usize,
        data: Vec<u8>,
    ) -> (f: GgufFile)
        ensures
            f@ == (GgufFileModel {
                header,
                metadata: metadata_model(metadata@),
                tensors: tensors_model(tensors@),
                alignment,
                data_start,
                data: data@,
            }),
    {
        GgufFile { header, metadata, tensors, alignment, data_start, data: FileBytes::new(data) }
    }

    /// Look up a metadata value by key: the value of the first entry whose
    /// key is `key`.
    pub fn metadata_value(&self, key: &str) -> (res: Option<&GgufValue>)
        ensures
            match first_key_index(self@.metadata, key@) {
                Some(i) => res is Some && res->Some_0@ == self@.metadata[i].1,
                None => res is None,
            },
    {
        proof {
            lemma_first_key_index(self@.metadata, key@);
        }
        match find_key(&self.metadata, key) {
            Some(i) => {
                assert(self@.metadata[i as int].1 == self.metadata@[i as int].1@);
                Some(&self.metadata[i].1)
            },
            None => None,
        }
    }

    /// Look up a tensor info by name: the first tensor named `name`.
    pub fn tensor(&self, name: &str) -> (res: Option<&GgufTensorInfo>)
        ensures
            match first_tensor_index(self@.tensors, name@) {
                Some(i) => res is Some && res->Some_0@ == self@.tensors[i],
                None => res is None,
            },
    {
        let ghost ts = tensors_model(self.tensors@);
        let mut i: usize = 0;
        while i < self.tensors.len()
            invariant
                i <= self.tensors.len(),
                ts == tensors_model(self.tensors@),
                forall|j: int| 0 <= j < i ==> ts[j].name != name@,
            decreases self.tensors.len() - i,
        {
            let matched = str_eq(self.tensors[i].name.as_str(), name);
            assert(ts[i as int].name == self.tensors@[i as int].name@);
            if matched {
                proof {
                    lemma_first_tensor_index(ts, name@);
                }
                return Some(&self.tensors[i]);
            }
            i = i + 1;
        }
        proof {
            lemma_first_tensor_index(ts, name@);
        }
        None
    }

    /// Raw bytes of a tensor's data.
    ///
    /// For element types with a known size the exact byte range is returned.
    /// For block-quantized types, the span up to the next tensor offset (or
    /// end of file) is returned, which may include trailing alignment padding.
    /// An error comes when the range does not lie inside the file.
    pub fn tensor_data(&self, info: &GgufTensorInfo) -> (res: Result<&[u8], GgufError>)
        ensures
            match spec_tensor_data(self@, info@) {
                Ok((s, e)) => res is Ok && res->Ok_0@ == self@.data.subrange(s, e),
                Err(err) => res is Err && res->Err_0@ == err,
            },
    {
        if info.offset > usize::MAX as u64 {
            return Err(GgufError::TensorOffsetOverflow);
        }
        let start = match self.data_start.checked_add(info.offset as usize) {
            Some(s) => s,
            None => return Err(GgufError::TensorOffsetOverflow),
        };
        let bytes = self.data.as_slice();
        let len = bytes.len();
        let size: usize = match info.data_size() {
            Some(s) => {
                if s > usize::MAX as u64 {
                    return Err(GgufError::TensorSizeOverflow);
                }
                s as usize
            },
            None => match next_offset(&self.tensors, info.offset) {
                Some(next) => {
                    proof {
                        lemma_next_offset_after(tensors_model(self.tensors@), info.offset);
                    }
                    let span = next - info.offset;
                    if span > usize::MAX as u64 {
                        return Err(GgufError::TensorSizeOverflow);
                    }
                    span as usize
                },
                None => len.saturating_sub(start),
            },
        };
        let end = match start.checked_add(size) {
            Some(e) => e,
            None => return Err(GgufError::TensorExtentOverflow),
        };
        if end > len {
            return Err(GgufError::TensorOutOfRange { name: info.name.clone(), start, end, file_len: len });
        }
        Ok(slice_subrange(bytes, start, end))
    }

    /// The element bit patterns of an F32 or F16 tensor, read little-endian
    /// from its data; trailing bytes that do not fill an element are left out.
    /// Other element types give `UnsupportedDecode`.
    pub fn tensor_float_bits(&self, info: &GgufTensorInfo) -> (res: Result<FloatBits, GgufError>)
        ensures
            match spec_tensor_data(self@, info@) {
                Err(err) => res is Err && res->Err_0@ == err,
                Ok((s, e)) => match info.ggml_type {
                    GgmlType::F32 => res matches Ok(FloatBits::F32(v)) && v@ == words32(
                        self@.data.subrange(s, e),
                    ),
                    GgmlType::F16 => res matches Ok(FloatBits::F16(v)) && v@ == words16(
                        self@.data.subrange(s, e),
                    ),
                    other => res is Err && res->Err_0@ == (ErrorModel::UnsupportedDecode {
                        name: info.name@,
                        ggml_type: other,
                    }),
                },
            },
    {
        let bytes = match self.tensor_data(info) {
            Ok(b) => b,
            Err(e) => return Err(e),
        };
        let n = bytes.len();
        match info.ggml_type {
            GgmlType::F32 => {
                let mut words: Vec<u32> = Vec::new();
                let mut p: usize = 0;
                while n - p >= 4
                    invariant
                        n == bytes@.len(),
                        p % 4 == 0,
                        p <= n,
                        words@.len() == p / 4,
                        forall|k: int| 0 <= k < words@.len() ==> words@[k] == le_u32(bytes@, 4 * k),
                    decreases n - p,
                {
                    words.push(read_word32(bytes, p));
                    p = p + 4;
                }
                assert(words@ =~= words32(bytes@));
                Ok(FloatBits::F32(words))
            },
            GgmlType::F16 => {
                let mut words: Vec<u16> = Vec::new();
                let mut p: usize = 0;
                while n - p >= 2
                    invariant
                        n == bytes@.len(),
                        p % 2 == 0,
                        p <= n,
                        words@.len() == p / 2,
                        forall|k: int| 0 <= k < words@.len() ==> words@[k] == le_u16(bytes@, 2 * k),
                    decreases n - p,
                {
                    words.push(read_word16(bytes, p));
                    p = p + 2;
                }
                assert(words@ =~= words16(bytes@));
                Ok(FloatBits::F16(words))
            },
            other => Err(GgufError::UnsupportedDecode { name: info.name.clone(), ggml_type: other }),
        }
    }

    /// The complete raw file contents.
    pub fn raw(&self) -> (res: &[u8])
        ensures
            res@ == self@.data,
    {
        self.data.as_slice()
    }
}

} // verus!
