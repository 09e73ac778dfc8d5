use vstd::arithmetic::div_mod::{lemma_fundamental_div_mod, lemma_mod_multiples_basic};
use vstd::prelude::*;

use crate::file::{
    lemma_next_offset_after, next_offset_after, spec_tensor_data, words16, words32, GgufFileModel,
};
use crate::header::spec_header;
use crate::metadata::{is_power_of_two, spec_alignment, spec_entry, spec_metadata, EntryModel};
use crate::parser::{first_tensor_error, round_up, spec_parse};
use crate::reader::{depth_rank, spec_read_string, spec_read_u32, spec_read_u64, spec_value, spec_values};
use crate::tensor_info::{spec_dims, spec_tensor_info, spec_tensor_infos};
use crate::types::{
    dims_product, spec_data_size, value_type_of, GgmlType, GgufValueType, TensorInfoModel, HEADER_LEN, MAX_ARRAY_DEPTH, MAX_DIMS,
};
use crate::stability::{
    extends, lemma_header_stable, lemma_metadata_stable, lemma_tensor_infos_stable,
};
use crate::value::{value_depth, values_depth};

verus! {

// ----- How far reads advance -----

pub(crate) proof fn lemma_value_advances(buf: Seq<u8>, pos: int, ty: GgufValueType, depth: nat)
    ensures
        spec_value(buf, pos, ty, depth) matches Ok((_, p)) ==> p >= pos,
    decreases depth_rank(depth), 0nat,
{
    if ty == GgufValueType::Array && depth < MAX_ARRAY_DEPTH {
        if let Ok((tag, p1)) = spec_read_u32(buf, pos) {
            if let Some(et) = value_type_of(tag) {
                if let Ok((count, p2)) = spec_read_u64(buf, p1) {
                    if count <= usize::MAX && count <= buf.len() - p2 {
                        lemma_values_advance(buf, p2, et, depth + 1, count as nat);
                    }
                }
            }
        }
    }
}

pub(crate) proof fn lemma_values_advance(buf: Seq<u8>, pos: int, ty: GgufValueType, depth: nat, n: nat)
    ensures
        spec_values(buf, pos, ty, depth, n) matches Ok((vs, p)) ==> p >= pos && vs.len() == n,
    decreases depth_rank(depth), n + 1,
{
    if n > 0 {
        lemma_value_advances(buf, pos, ty, depth);
        if let Ok((_, p)) = spec_value(buf, pos, ty, depth) {
            lemma_values_advance(buf, p, ty, depth, (n - 1) as nat);
        }
    }
}

pub(crate) proof fn lemma_metadata_advances(buf: Seq<u8>, pos: int, n: nat)
    ensures
        spec_metadata(buf, pos, n) matches Ok((ms, p)) ==> p >= pos && ms.len() == n,
    decreases n,
{
    if n > 0 {
        if let Ok((key, p1)) = spec_read_string(buf, pos) {
            if let Ok((tag, p2)) = spec_read_u32(buf, p1) {
                if let Some(ty) = value_type_of(tag) {
                    lemma_value_advances(buf, p2, ty, 0);
                }
            }
        }
        if let Ok((_, p)) = spec_entry(buf, pos) {
            lemma_metadata_advances(buf, p, (n - 1) as nat);
        }
    }
}

pub(crate) proof fn lemma_dims_advance(buf: Seq<u8>, pos: int, n: nat)
    ensures
        spec_dims(buf, pos, n) matches Ok((ds, p)) ==> p >= pos && ds.len() == n,
    decreases n,
{
    if n > 0 {
        if let Ok((_, p)) = spec_read_u64(buf, pos) {
            lemma_dims_advance(buf, p, (n - 1) as nat);
        }
    }
}

pub(crate) proof fn lemma_tensor_info_advances(buf: Seq<u8>, pos: int)
    ensures
        spec_tensor_info(buf, pos) matches Ok((t, p)) ==> p >= pos && t.dims.len() <= MAX_DIMS,
{
    if let Ok((name, p1)) = spec_read_string(buf, pos) {
        if let Ok((n_dims, p2)) = spec_read_u32(buf, p1) {
            lemma_dims_advance(buf, p2, n_dims as nat);
        }
    }
}

pub(crate) proof fn lemma_tensor_infos_advance(buf: Seq<u8>, pos: int, n: nat)
    ensures
        spec_tensor_infos(buf, pos, n) matches Ok((ts, p)) ==> {
            &&& p >= pos
            &&& ts.len() == n
            &&& forall|i: int| 0 <= i < ts.len() ==> #[trigger] ts[i].dims.len() <= MAX_DIMS
        },
    decreases n,
{
    if n > 0 {
        lemma_tensor_info_advances(buf, pos);
        if let Ok((t, p)) = spec_tensor_info(buf, pos) {
            lemma_tensor_infos_advance(buf, p, (n - 1) as nat);
            if let Ok((rest, q)) = spec_tensor_infos(buf, p, (n - 1) as nat) {
                let ts = seq![t] + rest;
                assert forall|i: int| 0 <= i < ts.len() implies #[trigger] ts[i].dims.len() <= MAX_DIMS by {
                    if i > 0 {
                        assert(ts[i] == rest[i - 1]);
                    }
                }
            }
        }
    }
}

/// Rounding `p` up to `a` gives the least multiple of `a` that is not below
/// `p`: a multiple, not below `p`, and less than `a` above it.
pub proof fn law_round_up(p: int, a: int)
    requires
        p >= 0,
        a > 0,
    ensures
        round_up(p, a) >= p,
        round_up(p, a) % a == 0,
        round_up(p, a) < p + a,
{
    lemma_fundamental_div_mod(p, a);
    if p % a == 0 {
    } else {
        let q = p / a;
        assert(round_up(p, a) == (q + 1) * a) by (nonlinear_arith)
            requires
                p == a * q + p % a,
                round_up(p, a) == p + (a - p % a),
        ;
        lemma_mod_multiples_basic(q + 1, a);
    }
}

proof fn lemma_pow2_32()
    ensures
        is_power_of_two(32),
{
    reveal_with_fuel(is_power_of_two, 7);
}

/// The alignment a parse accepts is a power of two of at least 8.
proof fn lemma_alignment_valid(meta: Seq<EntryModel>)
    ensures
        spec_alignment(meta) matches Ok(a) ==> a >= 8 && is_power_of_two(a as nat),
{
    lemma_pow2_32();
}

/// A successful parse lays the file out as GGUF promises: the header is the
/// one `parse_header` reads, with version 2 or 3; there are as many metadata
/// entries and tensor infos as the header counts; no tensor has more than 8
/// dimensions; the alignment is a power of two of at least 8; the data
/// section starts at a multiple of it, after the header and inside the
/// buffer; and the file keeps the bytes it was parsed from.
pub proof fn law_parsed_layout(buf: Seq<u8>)
    requires
        spec_parse(buf) is Ok,
    ensures
        ({
            let f = spec_parse(buf)->Ok_0;
            &&& spec_header(buf) == Ok::<_, crate::error::ErrorModel>(f.header)
            &&& f.header.version == 2 || f.header.version == 3
            &&& f.metadata.len() == f.header.metadata_kv_count
            &&& f.tensors.len() == f.header.tensor_count
            &&& forall|i: int| 0 <= i < f.tensors.len() ==> #[trigger] f.tensors[i].dims.len() <= MAX_DIMS
            &&& f.alignment >= 8
            &&& is_power_of_two(f.alignment as nat)
            &&& (f.data_start as int) % (f.alignment as int) == 0
            &&& HEADER_LEN <= f.data_start <= buf.len()
            &&& f.data == buf
        }),
{
    let h = spec_header(buf)->Ok_0;
    lemma_metadata_advances(buf, HEADER_LEN as int, h.metadata_kv_count as nat);
    let (meta, p1) = spec_metadata(buf, HEADER_LEN as int, h.metadata_kv_count as nat)->Ok_0;
    lemma_tensor_infos_advance(buf, p1, h.tensor_count as nat);
    let (ts, p2) = spec_tensor_infos(buf, p1, h.tensor_count as nat)->Ok_0;
    lemma_alignment_valid(meta);
    let a = spec_alignment(meta)->Ok_0;
    law_round_up(p2, a as int);
}

/// A tensor's data range, when there is one, starts at `data_start` plus the
/// tensor's offset and lies inside the file.
pub proof fn law_tensor_range_inside(f: GgufFileModel, t: TensorInfoModel)
    ensures
        spec_tensor_data(f, t) matches Ok((s, e)) ==> s == f.data_start + t.offset && s <= e <= f.data.len(),
{
    lemma_next_offset_after(f.tensors, t.offset);
}

/// The length of a tensor's data range: the data size for element types of
/// known size; otherwise the distance to the next larger tensor offset, or,
/// without one, the rest of the file.
pub proof fn law_tensor_range_length(f: GgufFileModel, t: TensorInfoModel)
    ensures
        spec_tensor_data(f, t) matches Ok((s, e)) ==> match spec_data_size(t) {
            Some(size) => e - s == size,
            None => match next_offset_after(f.tensors, t.offset) {
                Some(next) => e - s == next - t.offset && next > t.offset,
                None => e == f.data.len(),
            },
        },
{
    lemma_next_offset_after(f.tensors, t.offset);
}

proof fn lemma_no_first_error(f: GgufFileModel, n: nat)
    requires
        first_tensor_error(f, n) is None,
    ensures
        forall|i: int| 0 <= i < n ==> (#[trigger] spec_tensor_data(f, f.tensors[i])) is Ok,
    decreases n,
{
    if n > 0 {
        lemma_no_first_error(f, (n - 1) as nat);
    }
}

/// Every tensor of a successfully parsed file has a data range, and it lies
/// inside the file.
pub proof fn law_parsed_tensors_in_file(buf: Seq<u8>)
    requires
        spec_parse(buf) is Ok,
    ensures
        ({
            let f = spec_parse(buf)->Ok_0;
            forall|i: int|
                0 <= i < f.tensors.len() ==> ((#[trigger] spec_tensor_data(f, f.tensors[i])) matches Ok((s, e))
                    && f.data_start <= s <= e <= buf.len())
        }),
{
    let f = spec_parse(buf)->Ok_0;
    law_parsed_layout(buf);
    lemma_no_first_error(f, f.tensors.len());
    assert forall|i: int| 0 <= i < f.tensors.len() implies ((#[trigger] spec_tensor_data(f, f.tensors[i]))
        matches Ok((s, e)) && f.data_start <= s <= e <= buf.len()) by {
        law_tensor_range_inside(f, f.tensors[i]);
    }
}

/// A value read inside `depth` enclosing arrays nests at most as deep as the
/// limit allows: `depth` plus its own nesting never exceeds `MAX_ARRAY_DEPTH`.
pub proof fn law_value_nesting(buf: Seq<u8>, pos: int, ty: GgufValueType, depth: nat)
    requires
        depth <= MAX_ARRAY_DEPTH,
    ensures
        spec_value(buf, pos, ty, depth) matches Ok((m, _)) ==> depth + value_depth(m) <= MAX_ARRAY_DEPTH,
    decreases depth_rank(depth), 0nat,
{
    if ty == GgufValueType::Array && depth < MAX_ARRAY_DEPTH {
        if let Ok((tag, p1)) = spec_read_u32(buf, pos) {
            if let Some(et) = value_type_of(tag) {
                if let Ok((count, p2)) = spec_read_u64(buf, p1) {
                    if count <= usize::MAX && count <= buf.len() - p2 {
                        law_values_nesting(buf, p2, et, depth + 1, count as nat);
                    }
                }
            }
        }
    }
}

/// `n` values read inside `depth` enclosing arrays nest within the limit.
pub proof fn law_values_nesting(buf: Seq<u8>, pos: int, ty: GgufValueType, depth: nat, n: nat)
    requires
        depth <= MAX_ARRAY_DEPTH,
    ensures
        spec_values(buf, pos, ty, depth, n) matches Ok((vs, _)) ==> depth + values_depth(vs) <= MAX_ARRAY_DEPTH,
    decreases depth_rank(depth), n + 1,
{
    if n > 0 {
        law_value_nesting(buf, pos, ty, depth);
        if let Ok((v, p)) = spec_value(buf, pos, ty, depth) {
            law_values_nesting(buf, p, ty, depth, (n - 1) as nat);
            if let Ok((rest, q)) = spec_values(buf, p, ty, depth, (n - 1) as nat) {
                let vs = seq![v] + rest;
                assert(vs[0] == v);
                assert(vs.drop_first() =~= rest);
            }
        }
    }
}

proof fn lemma_metadata_nesting(buf: Seq<u8>, pos: int, n: nat)
    ensures
        spec_metadata(buf, pos, n) matches Ok((ms, _)) ==> forall|i: int|
            0 <= i < ms.len() ==> value_depth(#[trigger] ms[i].1) <= MAX_ARRAY_DEPTH,
    decreases n,
{
    if n > 0 {
        if let Ok((key, p1)) = spec_read_string(buf, pos) {
            if let Ok((tag, p2)) = spec_read_u32(buf, p1) {
                if let Some(ty) = value_type_of(tag) {
                    law_value_nesting(buf, p2, ty, 0);
                }
            }
        }
        if let Ok((kv, p)) = spec_entry(buf, pos) {
            lemma_metadata_nesting(buf, p, (n - 1) as nat);
            if let Ok((rest, q)) = spec_metadata(buf, p, (n - 1) as nat) {
                let ms = seq![kv] + rest;
                assert forall|i: int| 0 <= i < ms.len() implies value_depth(#[trigger] ms[i].1)
                    <= MAX_ARRAY_DEPTH by {
                    if i > 0 {
                        assert(ms[i] == rest[i - 1]);
                    }
                }
            }
        }
    }
}

/// No metadata value of a successfully parsed file nests arrays deeper than
/// `MAX_ARRAY_DEPTH`.
pub proof fn law_parsed_metadata_nesting(buf: Seq<u8>)
    requires
        spec_parse(buf) is Ok,
    ensures
        ({
            let f = spec_parse(buf)->Ok_0;
            forall|i: int| 0 <= i < f.metadata.len() ==> value_depth(#[trigger] f.metadata[i].1) <= MAX_ARRAY_DEPTH
        }),
{
    let h = spec_header(buf)->Ok_0;
    lemma_metadata_nesting(buf, HEADER_LEN as int, h.metadata_kv_count as nat);
}

/// Decoding a F32 or F16 tensor whose data size is known gives exactly one
/// word per element: the product of its dimensions.
pub proof fn law_float_words_per_element(f: GgufFileModel, t: TensorInfoModel)
    requires
        spec_data_size(t) is Some,
        spec_tensor_data(f, t) is Ok,
    ensures
        ({
            let (s, e) = spec_tensor_data(f, t)->Ok_0;
            &&& t.ggml_type == GgmlType::F32 ==> words32(f.data.subrange(s, e)).len() == dims_product(t.dims)
            &&& t.ggml_type == GgmlType::F16 ==> words16(f.data.subrange(s, e)).len() == dims_product(t.dims)
        }),
{
    law_tensor_range_length(f, t);
}

/// A tensor range found in a file is still found when the file is longer
/// and otherwise the same.
proof fn lemma_tensor_data_longer(fa: GgufFileModel, fb: GgufFileModel, t: TensorInfoModel)
    requires
        fb.header == fa.header,
        fb.metadata == fa.metadata,
        fb.tensors == fa.tensors,
        fb.alignment == fa.alignment,
        fb.data_start == fa.data_start,
        fa.data.len() <= fb.data.len() <= usize::MAX,
    ensures
        spec_tensor_data(fa, t) is Ok ==> spec_tensor_data(fb, t) is Ok,
{
    lemma_next_offset_after(fa.tensors, t.offset);
}

proof fn lemma_first_error_longer(fa: GgufFileModel, fb: GgufFileModel, n: nat)
    requires
        fb.header == fa.header,
        fb.metadata == fa.metadata,
        fb.tensors == fa.tensors,
        fb.alignment == fa.alignment,
        fb.data_start == fa.data_start,
        fa.data.len() <= fb.data.len() <= usize::MAX,
        first_tensor_error(fa, n) is None,
    ensures
        first_tensor_error(fb, n) is None,
    decreases n,
{
    if n > 0 {
        lemma_first_error_longer(fa, fb, (n - 1) as nat);
        lemma_tensor_data_longer(fa, fb, fa.tensors[n - 1]);
    }
}

/// Bytes appended after a parsable file leave its parse as it was: the same
/// header, metadata, tensor infos, alignment and data start; only the file
/// bytes grow (and with them a trailing block tensor's span).
pub proof fn law_parse_appended(a: Seq<u8>, extra: Seq<u8>)
    requires
        spec_parse(a) is Ok,
        a.len() + extra.len() <= usize::MAX,
    ensures
        spec_parse(a + extra) is Ok,
        ({
            let fa = spec_parse(a)->Ok_0;
            let fb = spec_parse(a + extra)->Ok_0;
            &&& fb.header == fa.header
            &&& fb.metadata == fa.metadata
            &&& fb.tensors == fa.tensors
            &&& fb.alignment == fa.alignment
            &&& fb.data_start == fa.data_start
            &&& fb.data == a + extra
        }),
{
    let b = a + extra;
    assert(extends(a, b));
    lemma_header_stable(a, b);
    let h = spec_header(a)->Ok_0;
    lemma_metadata_stable(a, b, HEADER_LEN as int, h.metadata_kv_count as nat);
    lemma_metadata_advances(a, HEADER_LEN as int, h.metadata_kv_count as nat);
    let (meta, p1) = spec_metadata(a, HEADER_LEN as int, h.metadata_kv_count as nat)->Ok_0;
    lemma_tensor_infos_stable(a, b, p1, h.tensor_count as nat);
    let (ts, p2) = spec_tensor_infos(a, p1, h.tensor_count as nat)->Ok_0;
    let fa = spec_parse(a)->Ok_0;
    let fb = GgufFileModel { data: b, ..fa };
    lemma_first_error_longer(fa, fb, ts.len());
}

/// A parsable file cut anywhere before the start of its data section is
/// refused.
pub proof fn law_truncated_refused(buf: Seq<u8>, k: int)
    requires
        spec_parse(buf) is Ok,
        0 <= k < spec_parse(buf)->Ok_0.data_start,
    ensures
        spec_parse(buf.take(k)) is Err,
{
    law_parsed_layout(buf);
    let a = buf.take(k);
    assert(extends(a, buf));
    lemma_header_stable(a, buf);
    if let Ok(h) = spec_header(a) {
        lemma_metadata_stable(a, buf, HEADER_LEN as int, h.metadata_kv_count as nat);
        lemma_metadata_advances(a, HEADER_LEN as int, h.metadata_kv_count as nat);
        if let Ok((meta, p1)) = spec_metadata(a, HEADER_LEN as int, h.metadata_kv_count as nat) {
            lemma_tensor_infos_stable(a, buf, p1, h.tensor_count as nat);
        }
    }
}

} // verus!
