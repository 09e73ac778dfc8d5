use vstd::arithmetic::power::pow;
use vstd::arithmetic::power2::{is_pow2, is_pow2_equiv, is_pow2_exists};
use vstd::layout::size_of;
use vstd::prelude::*;
use vstd::utf8::{decode_utf8, valid_utf8};

use crate::error::ErrorModel;
use crate::file::{words16, words32};
use crate::metadata::{alignment_key, first_key_index, is_power_of_two, spec_alignment, EntryModel};
use crate::header::spec_header;
use crate::laws::lemma_values_advance;
use crate::reader::{spec_read_string, spec_read_u32, spec_read_u64, spec_value, spec_values};
use crate::tensor_info::{spec_dims, spec_tensor_info};
use crate::types::{
    dims_product, ggml_type_of, spec_data_size, spec_element_size, value_type_of, GgmlType,
    GgufValueType, TensorInfoModel, MAX_ARRAY_DEPTH,
};
use crate::value::{model_as_u64, ValueModel};

verus! {

// ----- Type numbering -----

/// The number that GGUF gives each metadata value type.
pub open spec fn value_type_tag(t: GgufValueType) -> u32 {
    match t {
        GgufValueType::U8 => 0,
        GgufValueType::I8 => 1,
        GgufValueType::U16 => 2,
        GgufValueType::I16 => 3,
        GgufValueType::U32 => 4,
        GgufValueType::I32 => 5,
        GgufValueType::F32 => 6,
        GgufValueType::Bool => 7,
        GgufValueType::String => 8,
        GgufValueType::Array => 9,
        GgufValueType::U64 => 10,
        GgufValueType::I64 => 11,
        GgufValueType::F64 => 12,
    }
}

/// The number that ggml gives each tensor element type.
pub open spec fn ggml_type_id(t: GgmlType) -> u32 {
    match t {
        GgmlType::F32 => 0,
        GgmlType::F16 => 1,
        GgmlType::Q4_0 => 2,
        GgmlType::Q4_1 => 3,
        GgmlType::Q5_0 => 6,
        GgmlType::Q5_1 => 7,
        GgmlType::Q8_0 => 8,
        GgmlType::Q8_1 => 9,
        GgmlType::Q2_K => 10,
        GgmlType::Q3_K => 11,
        GgmlType::Q4_K => 12,
        GgmlType::Q5_K => 13,
        GgmlType::Q6_K => 14,
        GgmlType::Q8_K => 15,
        GgmlType::IQ2_XXS => 16,
        GgmlType::IQ2_XS => 17,
        GgmlType::IQ3_XXS => 18,
        GgmlType::IQ1_S => 19,
        GgmlType::IQ4_NL => 20,
        GgmlType::IQ3_S => 21,
        GgmlType::IQ2_S => 22,
        GgmlType::IQ4_XS => 23,
        GgmlType::I8 => 24,
        GgmlType::I16 => 25,
        GgmlType::I32 => 26,
        GgmlType::I64 => 27,
        GgmlType::F64 => 28,
        GgmlType::IQ1_M => 29,
        GgmlType::BF16 => 30,
        GgmlType::TQ1_0 => 34,
        GgmlType::TQ2_0 => 35,
        GgmlType::MXFP4 => 39,
    }
}

/// A value-type tag decodes to a type exactly when that type is numbered
/// with the tag: every tag names at most one type, and every type is read
/// back from its own number.
pub proof fn law_value_type_numbering(tag: u32, t: GgufValueType)
    ensures
        value_type_of(tag) == Some(t) <==> value_type_tag(t) == tag,
{
}

/// An element-type id decodes to a type exactly when ggml numbers that type
/// with the id (for instance 12 is Q4_K and 13 is Q5_K).
pub proof fn law_ggml_type_numbering(id: u32, t: GgmlType)
    ensures
        ggml_type_of(id) == Some(t) <==> ggml_type_id(t) == id,
{
}

// ----- Element sizes -----

/// The element size of each fixed-size type is the byte width of the
/// machine integer of the same width: 1 for I8, 2 for I16, F16 and BF16,
/// 4 for I32 and F32, 8 for I64 and F64; block-quantized types have none.
pub proof fn law_element_sizes(t: GgmlType)
    ensures
        t == GgmlType::I8 ==> spec_element_size(t) == Some(size_of::<i8>() as u64),
        t == GgmlType::I16 ==> spec_element_size(t) == Some(size_of::<i16>() as u64),
        t == GgmlType::F16 ==> spec_element_size(t) == Some(size_of::<u16>() as u64),
        t == GgmlType::BF16 ==> spec_element_size(t) == Some(size_of::<u16>() as u64),
        t == GgmlType::I32 ==> spec_element_size(t) == Some(size_of::<i32>() as u64),
        t == GgmlType::F32 ==> spec_element_size(t) == Some(size_of::<u32>() as u64),
        t == GgmlType::I64 ==> spec_element_size(t) == Some(size_of::<i64>() as u64),
        t == GgmlType::F64 ==> spec_element_size(t) == Some(size_of::<u64>() as u64),
        spec_element_size(t) is Some <==> (t == GgmlType::I8 || t == GgmlType::I16 || t
            == GgmlType::F16 || t == GgmlType::BF16 || t == GgmlType::I32 || t == GgmlType::F32
            || t == GgmlType::I64 || t == GgmlType::F64),
{
    broadcast use vstd::layout::layout_of_primitives;

}

/// The data size of a fixed-size tensor is its element count times the byte
/// width of its element type, when that fits in a `u64`; for I32 that is four
/// bytes per element. Types without a fixed size have no data size.
pub proof fn law_data_size(t: TensorInfoModel)
    ensures
        spec_element_size(t.ggml_type) is Some && dims_product(t.dims) * spec_element_size(
            t.ggml_type,
        )->Some_0 <= u64::MAX ==> spec_data_size(t) == Some(
            (dims_product(t.dims) * spec_element_size(t.ggml_type)->Some_0) as u64,
        ),
        t.ggml_type == GgmlType::I32 && dims_product(t.dims) * 4 <= u64::MAX ==> spec_data_size(t)
            == Some((dims_product(t.dims) * 4) as u64),
        spec_element_size(t.ggml_type) is None ==> spec_data_size(t) is None,
{
}

// ----- Float words -----

/// Each decoded single-precision word is the little-endian `u32` of its
/// four-byte group, all 32 bits included; trailing bytes are dropped.
pub proof fn law_words32(b: Seq<u8>)
    ensures
        words32(b).len() == b.len() / 4,
        forall|i: int|
            0 <= i < b.len() / 4 ==> #[trigger] words32(b)[i] as int == b[4 * i] + 0x100 * b[4 * i + 1]
                + 0x1_0000 * b[4 * i + 2] + 0x100_0000 * b[4 * i + 3],
{
    assert forall|i: int| 0 <= i < b.len() / 4 implies #[trigger] words32(b)[i] as int == b[4 * i]
        + 0x100 * b[4 * i + 1] + 0x1_0000 * b[4 * i + 2] + 0x100_0000 * b[4 * i + 3] by {
        assert(4 * i + 3 < b.len());
    }
}

/// Each decoded half-precision word is the little-endian `u16` of its
/// two-byte group, all 16 bits included; a trailing odd byte is dropped.
pub proof fn law_words16(b: Seq<u8>)
    ensures
        words16(b).len() == b.len() / 2,
        forall|i: int|
            0 <= i < b.len() / 2 ==> #[trigger] words16(b)[i] as int == b[2 * i] + 0x100 * b[2 * i + 1],
{
    assert forall|i: int| 0 <= i < b.len() / 2 implies #[trigger] words16(b)[i] as int == b[2 * i]
        + 0x100 * b[2 * i + 1] by {
        assert(2 * i + 1 < b.len());
    }
}

// ----- Alignment -----

proof fn lemma_power_of_two_exists(n: nat)
    ensures
        is_power_of_two(n) <==> exists|k: nat| pow(2, k) == n,
    decreases n,
{
    reveal(is_pow2);
    if n > 1 {
        lemma_power_of_two_exists(n / 2);
    }
    assert(is_power_of_two(n) == is_pow2(n as int)) by {
        lemma_same_power_of_two(n);
    }
    is_pow2_equiv(n as int);
}

proof fn lemma_same_power_of_two(n: nat)
    ensures
        is_power_of_two(n) == is_pow2(n as int),
    decreases n,
{
    reveal(is_pow2);
    if n > 1 {
        lemma_same_power_of_two(n / 2);
    }
}

/// How the metadata sets the alignment: without a `general.alignment`
/// entry, or when the first such entry is no non-negative integer, it is 32;
/// otherwise its value `a` is accepted exactly when `a` is a power of two of
/// at least 8 (8 included), and refused with `InvalidAlignment(a)` otherwise.
pub proof fn law_alignment_rule(meta: Seq<EntryModel>)
    ensures
        match first_key_index(meta, alignment_key()) {
            None => spec_alignment(meta) == Ok::<u64, ErrorModel>(32),
            Some(i) => match model_as_u64(meta[i].1) {
                None => spec_alignment(meta) == Ok::<u64, ErrorModel>(32),
                Some(a) => if a >= 8 && exists|k: nat| pow(2, k) == a {
                    spec_alignment(meta) == Ok::<u64, ErrorModel>(a)
                } else {
                    spec_alignment(meta) == Err::<u64, ErrorModel>(ErrorModel::InvalidAlignment(a))
                },
            },
        },
{
    if let Some(i) = first_key_index(meta, alignment_key()) {
        if let Some(a) = model_as_u64(meta[i].1) {
            lemma_power_of_two_exists(a as nat);
        }
    }
}

// ----- Scalar values -----

/// The little-endian value of `n` bytes at `pos`, written out byte by byte.
pub open spec fn bytes_le(buf: Seq<u8>, pos: int, n: nat) -> int
    decreases n,
{
    if n == 0 {
        0
    } else {
        buf[pos] + 0x100 * bytes_le(buf, pos + 1, (n - 1) as nat)
    }
}

/// The two's-complement value of the `n`-byte word `u` (n is 1, 2, 4 or 8):
/// words with the top bit set stand for `u - 2^(8n)`.
pub open spec fn twos_complement(u: int, n: nat) -> int {
    let modulus: int = if n == 1 {
        0x100
    } else if n == 2 {
        0x1_0000
    } else if n == 4 {
        0x1_0000_0000
    } else {
        0x1_0000_0000_0000_0000
    };
    if 2 * u < modulus { u } else { u - modulus }
}

/// How each fixed-width metadata value is decoded from the bytes at `pos`:
/// an unsigned integer is the little-endian value of its bytes, a signed
/// one the two's-complement reading of them, a float the same bits, and a
/// bool is true exactly when its byte is non-zero. The read moves past
/// exactly those bytes; with too few bytes left it fails at `pos`.
pub proof fn law_scalar_decoding(buf: Seq<u8>, pos: int, depth: nat)
    requires
        0 <= pos <= buf.len(),
    ensures
        pos + 1 <= buf.len() ==> spec_value(buf, pos, GgufValueType::U8, depth) == Ok::<_, ErrorModel>(
            (ValueModel::U8(buf[pos]), pos + 1),
        ),
        pos + 1 <= buf.len() ==> spec_value(buf, pos, GgufValueType::Bool, depth) == Ok::<_, ErrorModel>(
            (ValueModel::Bool(buf[pos] != 0), pos + 1),
        ),
        pos + 1 <= buf.len() ==> (spec_value(buf, pos, GgufValueType::I8, depth) matches Ok(
            (ValueModel::I8(x), p),
        ) && p == pos + 1 && x as int == twos_complement(bytes_le(buf, pos, 1), 1)),
        pos + 2 <= buf.len() ==> (spec_value(buf, pos, GgufValueType::U16, depth) matches Ok(
            (ValueModel::U16(x), p),
        ) && p == pos + 2 && x as int == bytes_le(buf, pos, 2)),
        pos + 2 <= buf.len() ==> (spec_value(buf, pos, GgufValueType::I16, depth) matches Ok(
            (ValueModel::I16(x), p),
        ) && p == pos + 2 && x as int == twos_complement(bytes_le(buf, pos, 2), 2)),
        pos + 4 <= buf.len() ==> (spec_value(buf, pos, GgufValueType::U32, depth) matches Ok(
            (ValueModel::U32(x), p),
        ) && p == pos + 4 && x as int == bytes_le(buf, pos, 4)),
        pos + 4 <= buf.len() ==> (spec_value(buf, pos, GgufValueType::I32, depth) matches Ok(
            (ValueModel::I32(x), p),
        ) && p == pos + 4 && x as int == twos_complement(bytes_le(buf, pos, 4), 4)),
        pos + 4 <= buf.len() ==> (spec_value(buf, pos, GgufValueType::F32, depth) matches Ok(
            (ValueModel::F32(x), p),
        ) && p == pos + 4 && x as int == bytes_le(buf, pos, 4)),
        pos + 8 <= buf.len() ==> (spec_value(buf, pos, GgufValueType::U64, depth) matches Ok(
            (ValueModel::U64(x), p),
        ) && p == pos + 8 && x as int == bytes_le(buf, pos, 8)),
        pos + 8 <= buf.len() ==> (spec_value(buf, pos, GgufValueType::I64, depth) matches Ok(
            (ValueModel::I64(x), p),
        ) && p == pos + 8 && x as int == twos_complement(bytes_le(buf, pos, 8), 8)),
        pos + 8 <= buf.len() ==> (spec_value(buf, pos, GgufValueType::F64, depth) matches Ok(
            (ValueModel::F64(x), p),
        ) && p == pos + 8 && x as int == bytes_le(buf, pos, 8)),
        pos + 1 > buf.len() ==> spec_value(buf, pos, GgufValueType::U8, depth) == Err::<
            (ValueModel, int),
            ErrorModel,
        >(ErrorModel::UnexpectedEof { offset: pos as usize }),
        pos + 1 > buf.len() ==> spec_value(buf, pos, GgufValueType::Bool, depth) == Err::<
            (ValueModel, int),
            ErrorModel,
        >(ErrorModel::UnexpectedEof { offset: pos as usize }),
{
    reveal_with_fuel(bytes_le, 9);
}

// ----- Header, strings, arrays, integers -----

/// The header is accepted exactly when the buffer holds at least 24 bytes,
/// starts with `GGUF` and declares version 2 or 3; its fields are then the
/// little-endian `u32` at 4 and the `u64`s at 8 and 16.
pub proof fn law_header_fields(buf: Seq<u8>)
    ensures
        spec_header(buf) is Ok <==> (buf.len() >= 24 && buf[0] == 0x47 && buf[1] == 0x47 && buf[2]
            == 0x55 && buf[3] == 0x46 && 2 <= bytes_le(buf, 4, 4) <= 3),
        spec_header(buf) matches Ok(h) ==> h.version as int == bytes_le(buf, 4, 4) && h.tensor_count
            as int == bytes_le(buf, 8, 8) && h.metadata_kv_count as int == bytes_le(buf, 16, 8),
{
    reveal_with_fuel(bytes_le, 9);
}

/// A string value is a `u64` byte length followed by that many bytes, which
/// must be valid UTF-8; the value is the characters they encode, and the read
/// ends right after them.
pub proof fn law_string_decoding(buf: Seq<u8>, pos: int, depth: nat)
    requires
        0 <= pos,
        pos + 8 <= buf.len() <= usize::MAX,
    ensures
        ({
            let len = bytes_le(buf, pos, 8);
            let end = pos + 8 + len;
            &&& spec_value(buf, pos, GgufValueType::String, depth) is Ok <==> (end <= buf.len()
                && valid_utf8(buf.subrange(pos + 8, end)))
            &&& spec_value(buf, pos, GgufValueType::String, depth) is Ok ==> spec_value(
                buf,
                pos,
                GgufValueType::String,
                depth,
            ) == Ok::<_, ErrorModel>((ValueModel::Str(decode_utf8(buf.subrange(pos + 8, end))), end))
        }),
{
    reveal_with_fuel(bytes_le, 9);
}

/// An array value holds a `u32` element-type tag and a `u64` count, then
/// exactly that many elements, all of the tagged type.
pub proof fn law_array_shape(buf: Seq<u8>, pos: int, depth: nat)
    requires
        0 <= pos,
        pos + 12 <= buf.len(),
    ensures
        spec_value(buf, pos, GgufValueType::Array, depth) matches Ok((ValueModel::Array(et, vs), _))
            ==> value_type_of(bytes_le(buf, pos, 4) as u32) == Some(et) && vs.len() == bytes_le(
            buf,
            pos + 4,
            8,
        ),
        spec_value(buf, pos, GgufValueType::Array, depth) is Ok ==> spec_value(
            buf,
            pos,
            GgufValueType::Array,
            depth,
        )->Ok_0.0 is Array,
{
    reveal_with_fuel(bytes_le, 9);
    if depth < MAX_ARRAY_DEPTH {
        if let Ok((tag, p1)) = spec_read_u32(buf, pos) {
            if let Some(et) = value_type_of(tag) {
                if let Ok((count, p2)) = spec_read_u64(buf, p1) {
                    if count <= usize::MAX && count <= buf.len() - p2 {
                        lemma_values_advance(buf, p2, et, depth + 1, count as nat);
                    }
                }
            }
        }
    }
}

/// A value reads as an unsigned 64-bit integer exactly when it is an
/// integer that is not negative, and then as that number.
pub proof fn law_as_u64(m: ValueModel)
    ensures
        model_as_u64(m) is Some <==> match m {
            ValueModel::U8(_) | ValueModel::U16(_) | ValueModel::U32(_) | ValueModel::U64(_) => true,
            ValueModel::I8(x) => x >= 0,
            ValueModel::I16(x) => x >= 0,
            ValueModel::I32(x) => x >= 0,
            ValueModel::I64(x) => x >= 0,
            _ => false,
        },
        model_as_u64(m) matches Some(v) ==> match m {
            ValueModel::U8(x) => v == x,
            ValueModel::U16(x) => v == x,
            ValueModel::U32(x) => v == x,
            ValueModel::U64(x) => v == x,
            ValueModel::I8(x) => v == x,
            ValueModel::I16(x) => v == x,
            ValueModel::I32(x) => v == x,
            ValueModel::I64(x) => v == x,
            _ => false,
        },
{
}

/// The element count of a tensor is the product of its dimensions: 1 with
/// no dimensions, and each further dimension multiplies it.
pub proof fn law_dims_product(dims: Seq<u64>, d: u64)
    ensures
        dims_product(Seq::empty()) == 1,
        dims_product(dims.push(d)) == dims_product(dims) * d,
        dims_product(seq![d]) == d,
{
    assert(dims.push(d).drop_last() =~= dims);
    assert(seq![d].drop_last() =~= Seq::<u64>::empty());
    assert(dims_product(Seq::<u64>::empty()) == 1);
    assert(dims_product(seq![d]) == dims_product(seq![d].drop_last()) * seq![d].last());
}

/// A tensor may declare at most eight dimensions: more are refused with
/// `TooManyDims` naming the tensor, and eight or fewer never are.
pub proof fn law_dims_limit(buf: Seq<u8>, pos: int)
    ensures
        spec_read_string(buf, pos) matches Ok((name, p1)) ==> (spec_read_u32(buf, p1) matches Ok(
            (n_dims, _),
        ) ==> (n_dims > 8 ==> spec_tensor_info(buf, pos) == Err::<(TensorInfoModel, int), ErrorModel>(
            ErrorModel::TooManyDims { name, n_dims },
        )) && (n_dims <= 8 ==> !(spec_tensor_info(buf, pos) matches Err(
            ErrorModel::TooManyDims { .. },
        )))),
{
    if let Ok((name, p1)) = spec_read_string(buf, pos) {
        if let Ok((n_dims, p2)) = spec_read_u32(buf, p1) {
            if n_dims <= 8 {
                lemma_dims_no_limit_error(buf, p2, n_dims as nat);
            }
        }
    }
}

proof fn lemma_dims_no_limit_error(buf: Seq<u8>, pos: int, n: nat)
    ensures
        !(spec_dims(buf, pos, n) matches Err(ErrorModel::TooManyDims { .. })),
    decreases n,
{
    if n > 0 {
        if let Ok((_, p)) = spec_read_u64(buf, pos) {
            lemma_dims_no_limit_error(buf, p, (n - 1) as nat);
        }
    }
}

proof fn lemma_scalars_no_nesting_error(buf: Seq<u8>, pos: int, ty: GgufValueType, depth: nat, n: nat)
    requires
        ty != GgufValueType::Array,
    ensures
        !(spec_values(buf, pos, ty, depth, n) matches Err(ErrorModel::ArrayNestingTooDeep)),
    decreases n,
{
    if n > 0 {
        if let Ok((_, p)) = spec_value(buf, pos, ty, depth) {
            lemma_scalars_no_nesting_error(buf, p, ty, depth, (n - 1) as nat);
        }
    }
}

/// Arrays may nest eight deep: an array met inside eight enclosing arrays is
/// refused with `ArrayNestingTooDeep`, and an array of non-array elements met
/// inside fewer never is.
pub proof fn law_nesting_limit(buf: Seq<u8>, pos: int, depth: nat)
    ensures
        depth >= 8 ==> spec_value(buf, pos, GgufValueType::Array, depth) == Err::<(ValueModel, int), ErrorModel>(
            ErrorModel::ArrayNestingTooDeep,
        ),
        depth < 8 && (spec_read_u32(buf, pos) matches Ok((tag, _)) && tag != 9) ==> !(spec_value(
            buf,
            pos,
            GgufValueType::Array,
            depth,
        ) matches Err(ErrorModel::ArrayNestingTooDeep)),
{
    if depth < 8 {
        if let Ok((tag, p1)) = spec_read_u32(buf, pos) {
            if let Some(et) = value_type_of(tag) {
                law_value_type_numbering(tag, et);
                if let Ok((count, p2)) = spec_read_u64(buf, p1) {
                    if et != GgufValueType::Array {
                        lemma_scalars_no_nesting_error(buf, p2, et, depth + 1, count as nat);
                    }
                }
            }
        }
    }
}

} // verus!
