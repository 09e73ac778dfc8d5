use vstd::prelude::*;

use crate::types::GgmlType;

verus! {

/// Why a GGUF buffer, or a part of one, was refused.
#[derive(Clone, Debug, PartialEq, Eq)]
pub enum GgufError {
    /// The buffer is shorter than the fixed-size header.
    HeaderTooShort,
    /// The first four bytes are not `GGUF`.
    BadMagic,
    /// The version field names a version other than 2 or 3.
    UnsupportedVersion(u32),
    /// A read needed more bytes than remain after `offset`.
    UnexpectedEof { offset: usize },
    /// A string length does not fit in `usize`.
    StringLengthOverflow,
    /// A string's bytes are not valid UTF-8.
    InvalidUtf8,
    /// A metadata value type tag that GGUF does not define.
    UnknownValueType(u32),
    /// A tensor element type id that ggml does not define.
    UnknownGgmlType(u32),
    /// A tensor declares more than eight dimensions.
    TooManyDims { name: String, n_dims: u32 },
    /// Metadata arrays are nested deeper than the limit.
    ArrayNestingTooDeep,
    /// An array element count does not fit in `usize`.
    ArrayCountOverflow,
    /// An array declares more elements than bytes remain in the buffer.
    ArrayCountExceedsRemaining { count: usize },
    /// `general.alignment` is not a power of two of at least 8.
    InvalidAlignment(u64),
    /// The aligned start of the tensor-data section does not fit in `usize`.
    DataOffsetOverflow,
    /// The buffer ends before the aligned start of the tensor-data section.
    TruncatedBeforeData,
    /// The absolute start of a tensor's data does not fit in `usize`.
    TensorOffsetOverflow,
    /// The byte size of a tensor's data does not fit in `usize`.
    TensorSizeOverflow,
    /// The absolute end of a tensor's data does not fit in `usize`.
    TensorExtentOverflow,
    /// A tensor's data range `start..end` reaches past the end of the file.
    TensorOutOfRange { name: String, start: usize, end: usize, file_len: usize },
    /// Only F32 and F16 tensors can be decoded to 32-bit floats.
    UnsupportedDecode { name: String, ggml_type: GgmlType },
}

/// The mathematical content of an error: tensor names as characters.
pub enum ErrorModel {
    /// The buffer is shorter than the fixed-size header.
    HeaderTooShort,
    /// The first four bytes are not `GGUF`.
    BadMagic,
    /// The version field names a version other than 2 or 3.
    UnsupportedVersion(u32),
    /// A read needed more bytes than remain after `offset`.
    UnexpectedEof { offset: usize },
    /// A string length does not fit in `usize`.
    StringLengthOverflow,
    /// A string's bytes are not valid UTF-8.
    InvalidUtf8,
    /// A metadata value type tag that GGUF does not define.
    UnknownValueType(u32),
    /// A tensor element type id that ggml does not define.
    UnknownGgmlType(u32),
    /// A tensor declares more than eight dimensions.
    TooManyDims { name: Seq<char>, n_dims: u32 },
    /// Metadata arrays are nested deeper than the limit.
    ArrayNestingTooDeep,
    /// An array element count does not fit in `usize`.
    ArrayCountOverflow,
    /// An array declares more elements than bytes remain in the buffer.
    ArrayCountExceedsRemaining { count: usize },
    /// `general.alignment` is not a power of two of at least 8.
    InvalidAlignment(u64),
    /// The aligned start of the tensor-data section does not fit in `usize`.
    DataOffsetOverflow,
    /// The buffer ends before the aligned start of the tensor-data section.
    TruncatedBeforeData,
    /// The absolute start of a tensor's data does not fit in `usize`.
    TensorOffsetOverflow,
    /// The byte size of a tensor's data does not fit in `usize`.
    TensorSizeOverflow,
    /// The absolute end of a tensor's data does not fit in `usize`.
    TensorExtentOverflow,
    /// A tensor's data range `start..end` reaches past the end of the file.
    TensorOutOfRange { name: Seq<char>, start: usize, end: usize, file_len: usize },
    /// Only F32 and F16 tensors can be decoded to 32-bit floats.
    UnsupportedDecode { name: Seq<char>, ggml_type: GgmlType },
}


impl View for GgufError {
    type V = ErrorModel;

    open spec fn view(&self) -> ErrorModel {
        match self {
            GgufError::HeaderTooShort => ErrorModel::HeaderTooShort,
            GgufError::BadMagic => ErrorModel::BadMagic,
            GgufError::UnsupportedVersion(x) => ErrorModel::UnsupportedVersion(*x),
            GgufError::UnexpectedEof { offset } => ErrorModel::UnexpectedEof { offset: *offset },
            GgufError::StringLengthOverflow => ErrorModel::StringLengthOverflow,
            GgufError::InvalidUtf8 => ErrorModel::InvalidUtf8,
            GgufError::UnknownValueType(x) => ErrorModel::UnknownValueType(*x),
            GgufError::UnknownGgmlType(x) => ErrorModel::UnknownGgmlType(*x),
            GgufError::TooManyDims { name, n_dims } => ErrorModel::TooManyDims { name: name@, n_dims: *n_dims },
            GgufError::ArrayNestingTooDeep => ErrorModel::ArrayNestingTooDeep,
            GgufError::ArrayCountOverflow => ErrorModel::ArrayCountOverflow,
            GgufError::ArrayCountExceedsRemaining { count } => ErrorModel::ArrayCountExceedsRemaining { count: *count },
            GgufError::InvalidAlignment(x) => ErrorModel::InvalidAlignment(*x),
            GgufError::DataOffsetOverflow => ErrorModel::DataOffsetOverflow,
            GgufError::TruncatedBeforeData => ErrorModel::TruncatedBeforeData,
            GgufError::TensorOffsetOverflow => ErrorModel::TensorOffsetOverflow,
            GgufError::TensorSizeOverflow => ErrorModel::TensorSizeOverflow,
            GgufError::TensorExtentOverflow => ErrorModel::TensorExtentOverflow,
            GgufError::TensorOutOfRange { name, start, end, file_len } => ErrorModel::TensorOutOfRange { name: name@, start: *start, end: *end, file_len: *file_len },
            GgufError::UnsupportedDecode { name, ggml_type } => ErrorModel::UnsupportedDecode { name: name@, ggml_type: *ggml_type },
        }
    }
}

} // verus!
