use vstd::prelude::*;

use crate::error::GgufError;

verus! {

/// Alignment of the tensor-data section when `general.alignment` is absent.
pub const DEFAULT_ALIGNMENT: u64 = 32;

/// Size in bytes of the fixed header: magic, version, tensor count, metadata count.
pub const HEADER_LEN: usize = 24;

/// Deepest nesting of metadata arrays that a reader accepts.
pub const MAX_ARRAY_DEPTH: u32 = 8;

/// Most dimensions a tensor may declare.
pub const MAX_DIMS: u32 = 8;

/// The fixed-size file header.
#[derive(Clone, Copy, Debug, PartialEq, Eq, Structural)]
pub struct GgufHeader {
    /// Format version (2 or 3).
    pub version: u32,
    /// Number of tensor infos that follow the metadata.
    pub tensor_count: u64,
    /// Number of metadata key/value pairs.
    pub metadata_kv_count: u64,
}

/// The type tag of a metadata value.
#[derive(Clone, Copy, Debug, PartialEq, Eq, Structural)]
pub enum GgufValueType {
    U8,
    I8,
    U16,
    I16,
    U32,
    I32,
    F32,
    Bool,
    String,
    Array,
    U64,
    I64,
    F64,
}

/// The value type that a tag number names, if any.
pub open spec fn value_type_of(tag: u32) -> Option<GgufValueType> {
    if tag == 0 {
        Some(GgufValueType::U8)
    } else if tag == 1 {
        Some(GgufValueType::I8)
    } else if tag == 2 {
        Some(GgufValueType::U16)
    } else if tag == 3 {
        Some(GgufValueType::I16)
    } else if tag == 4 {
        Some(GgufValueType::U32)
    } else if tag == 5 {
        Some(GgufValueType::I32)
    } else if tag == 6 {
        Some(GgufValueType::F32)
    } else if tag == 7 {
        Some(GgufValueType::Bool)
    } else if tag == 8 {
        Some(GgufValueType::String)
    } else if tag == 9 {
        Some(GgufValueType::Array)
    } else if tag == 10 {
        Some(GgufValueType::U64)
    } else if tag == 11 {
        Some(GgufValueType::I64)
    } else if tag == 12 {
        Some(GgufValueType::F64)
    } else {
        None
    }
}

impl GgufValueType {
    /// The value type with tag number `tag`.
    pub fn from_u32(tag: u32) -> (res: Result<GgufValueType, GgufError>)
        ensures
            match value_type_of(tag) {
                Some(t) => res == Ok::<GgufValueType, GgufError>(t),
                None => res == Err::<GgufValueType, GgufError>(GgufError::UnknownValueType(tag)),
            },
    {
        match tag {
            0 => Ok(GgufValueType::U8),
            1 => Ok(GgufValueType::I8),
            2 => Ok(GgufValueType::U16),
            3 => Ok(GgufValueType::I16),
            4 => Ok(GgufValueType::U32),
            5 => Ok(GgufValueType::I32),
            6 => Ok(GgufValueType::F32),
            7 => Ok(GgufValueType::Bool),
            8 => Ok(GgufValueType::String),
            9 => Ok(GgufValueType::Array),
            10 => Ok(GgufValueType::U64),
            11 => Ok(GgufValueType::I64),
            12 => Ok(GgufValueType::F64),
            _ => Err(GgufError::UnknownValueType(tag)),
        }
    }
}

/// The element type of a tensor.
#[allow(non_camel_case_types)]
#[derive(Clone, Copy, Debug, PartialEq, Eq, Structural)]
pub enum GgmlType {
    F32,
    F16,
    Q4_0,
    Q4_1,
    Q5_0,
    Q5_1,
    Q8_0,
    Q8_1,
    Q2_K,
    Q3_K,
    Q4_K,
    Q5_K,
    Q6_K,
    Q8_K,
    IQ2_XXS,
    IQ2_XS,
    IQ3_XXS,
    IQ1_S,
    IQ4_NL,
    IQ3_S,
    IQ2_S,
    IQ4_XS,
    I8,
    I16,
    I32,
    I64,
    F64,
    IQ1_M,
    BF16,
    TQ1_0,
    TQ2_0,
    MXFP4,
}

/// The element type that an id names, if any.
pub open spec fn ggml_type_of(id: u32) -> Option<GgmlType> {
    if id == 0 {
        Some(GgmlType::F32)
    } else if id == 1 {
        Some(GgmlType::F16)
    } else if id == 2 {
        Some(GgmlType::Q4_0)
    } else if id == 3 {
        Some(GgmlType::Q4_1)
    } else if id == 6 {
        Some(GgmlType::Q5_0)
    } else if id == 7 {
        Some(GgmlType::Q5_1)
    } else if id == 8 {
        Some(GgmlType::Q8_0)
    } else if id == 9 {
        Some(GgmlType::Q8_1)
    } else if id == 10 {
        Some(GgmlType::Q2_K)
    } else if id == 11 {
        Some(GgmlType::Q3_K)
    } else if id == 12 {
        Some(GgmlType::Q4_K)
    } else if id == 13 {
        Some(GgmlType::Q5_K)
    } else if id == 14 {
        Some(GgmlType::Q6_K)
    } else if id == 15 {
        Some(GgmlType::Q8_K)
    } else if id == 16 {
        Some(GgmlType::IQ2_XXS)
    } else if id == 17 {
        Some(GgmlType::IQ2_XS)
    } else if id == 18 {
        Some(GgmlType::IQ3_XXS)
    } else if id == 19 {
        Some(GgmlType::IQ1_S)
    } else if id == 20 {
        Some(GgmlType::IQ4_NL)
    } else if id == 21 {
        Some(GgmlType::IQ3_S)
    } else if id == 22 {
        Some(GgmlType::IQ2_S)
    } else if id == 23 {
        Some(GgmlType::IQ4_XS)
    } else if id == 24 {
        Some(GgmlType::I8)
    } else if id == 25 {
        Some(GgmlType::I16)
    } else if id == 26 {
        Some(GgmlType::I32)
    } else if id == 27 {
        Some(GgmlType::I64)
    } else if id == 28 {
        Some(GgmlType::F64)
    } else if id == 29 {
        Some(GgmlType::IQ1_M)
    } else if id == 30 {
        Some(GgmlType::BF16)
    } else if id == 34 {
        Some(GgmlType::TQ1_0)
    } else if id == 35 {
        Some(GgmlType::TQ2_0)
    } else if id == 39 {
        Some(GgmlType::MXFP4)
    } else {
        None
    }
}

/// Bytes per element of the types that store one element per fixed-size
/// unit; block-quantized types have none.
pub open spec fn spec_element_size(t: GgmlType) -> Option<u64> {
    match t {
        GgmlType::F32 => Some(4u64),
        GgmlType::F16 => Some(2u64),
        GgmlType::BF16 => Some(2u64),
        GgmlType::I8 => Some(1u64),
        GgmlType::I16 => Some(2u64),
        GgmlType::I32 => Some(4u64),
        GgmlType::I64 => Some(8u64),
        GgmlType::F64 => Some(8u64),
        _ => None,
    }
}

impl GgmlType {
    /// The element type with id `id`.
    pub fn from_u32(id: u32) -> (res: Result<GgmlType, GgufError>)
        ensures
            match ggml_type_of(id) {
                Some(t) => res == Ok::<GgmlType, GgufError>(t),
                None => res == Err::<GgmlType, GgufError>(GgufError::UnknownGgmlType(id)),
            },
    {
        match id {
            0 => Ok(GgmlType::F32),
            1 => Ok(GgmlType::F16),
            2 => Ok(GgmlType::Q4_0),
            3 => Ok(GgmlType::Q4_1),
            6 => Ok(GgmlType::Q5_0),
            7 => Ok(GgmlType::Q5_1),
            8 => Ok(GgmlType::Q8_0),
            9 => Ok(GgmlType::Q8_1),
            10 => Ok(GgmlType::Q2_K),
            11 => Ok(GgmlType::Q3_K),
            12 => Ok(GgmlType::Q4_K),
            13 => Ok(GgmlType::Q5_K),
            14 => Ok(GgmlType::Q6_K),
            15 => Ok(GgmlType::Q8_K),
            16 => Ok(GgmlType::IQ2_XXS),
            17 => Ok(GgmlType::IQ2_XS),
            18 => Ok(GgmlType::IQ3_XXS),
            19 => Ok(GgmlType::IQ1_S),
            20 => Ok(GgmlType::IQ4_NL),
            21 => Ok(GgmlType::IQ3_S),
            22 => Ok(GgmlType::IQ2_S),
            23 => Ok(GgmlType::IQ4_XS),
            24 => Ok(GgmlType::I8),
            25 => Ok(GgmlType::I16),
            26 => Ok(GgmlType::I32),
            27 => Ok(GgmlType::I64),
            28 => Ok(GgmlType::F64),
            29 => Ok(GgmlType::IQ1_M),
            30 => Ok(GgmlType::BF16),
            34 => Ok(GgmlType::TQ1_0),
            35 => Ok(GgmlType::TQ2_0),
            39 => Ok(GgmlType::MXFP4),
            _ => Err(GgufError::UnknownGgmlType(id)),
        }
    }

    /// Bytes per element, for the types whose elements have a fixed size.
    pub fn element_size(self) -> (res: Option<u64>)
        ensures
            res == spec_element_size(self),
    {
        match self {
            GgmlType::F32 => Some(4),
            GgmlType::F16 => Some(2),
            GgmlType::BF16 => Some(2),
            GgmlType::I8 => Some(1),
            GgmlType::I16 => Some(2),
            GgmlType::I32 => Some(4),
            GgmlType::I64 => Some(8),
            GgmlType::F64 => Some(8),
            _ => None,
        }
    }
}

/// The product of a sequence of dimensions (1 for no dimensions).
pub open spec fn dims_product(dims: Seq<u64>) -> nat
    decreases dims.len(),
{
    if dims.len() == 0 {
        1
    } else {
        dims_product(dims.drop_last()) * dims.last() as nat
    }
}

/// The mathematical content of a tensor info.
pub struct TensorInfoModel {
    pub name: Seq<char>,
    pub dims: Seq<u64>,
    pub ggml_type: GgmlType,
    pub offset: u64,
}

/// The byte size of a tensor's data: known when the element type has a fixed
/// element size and the size fits in a `u64`.
pub open spec fn spec_data_size(t: TensorInfoModel) -> Option<u64> {
    match spec_element_size(t.ggml_type) {
        Some(s) => {
            let total = dims_product(t.dims) * s;
            if total <= u64::MAX {
                Some(total as u64)
            } else {
                None
            }
        },
        None => None,
    }
}

/// What the file says of one tensor.
#[derive(Clone, Debug)]
pub struct GgufTensorInfo {
    /// Tensor name.
    pub name: String,
    /// Dimensions, innermost first.
    pub dims: Vec<u64>,
    /// Element type.
    pub ggml_type: GgmlType,
    /// Offset of the tensor's data, relative to the start of the data section.
    pub offset: u64,
}

impl View for GgufTensorInfo {
    type V = TensorInfoModel;

    open spec fn view(&self) -> TensorInfoModel {
        TensorInfoModel {
            name: self.name@,
            dims: self.dims@,
            ggml_type: self.ggml_type,
            offset: self.offset,
        }
    }
}

} // verus!
