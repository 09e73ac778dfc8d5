use vstd::prelude::*;

use crate::header::spec_header;
use crate::metadata::{spec_entry, spec_metadata};
use crate::reader::{
    depth_rank, spec_read_string, spec_read_u16, spec_read_u32, spec_read_u64, spec_read_u8,
    spec_take, spec_value, spec_values,
};
use crate::tensor_info::{spec_dims, spec_tensor_info, spec_tensor_info_rest, spec_tensor_infos};
use crate::types::{value_type_of, GgufValueType, MAX_ARRAY_DEPTH};

verus! {

/// `b` starts with the bytes of `a`.
pub open spec fn extends(a: Seq<u8>, b: Seq<u8>) -> bool {
    &&& a.len() <= b.len()
    &&& forall|i: int| 0 <= i < a.len() ==> #[trigger] a[i] == b[i]
}

// Each read that succeeds on a buffer gives the same result on any longer
// buffer that starts with it: reads look only at the bytes they consume
// (and, for arrays, at how many bytes remain, which only grows).

pub proof fn lemma_take_stable(a: Seq<u8>, b: Seq<u8>, pos: int, n: int)
    requires
        extends(a, b),
    ensures
        spec_take(a, pos, n) is Ok ==> spec_take(b, pos, n) == spec_take(a, pos, n),
{
}

pub proof fn lemma_read_ints_stable(a: Seq<u8>, b: Seq<u8>, pos: int)
    requires
        extends(a, b),
        0 <= pos,
    ensures
        spec_read_u8(a, pos) is Ok ==> spec_read_u8(b, pos) == spec_read_u8(a, pos),
        spec_read_u16(a, pos) is Ok ==> spec_read_u16(b, pos) == spec_read_u16(a, pos),
        spec_read_u32(a, pos) is Ok ==> spec_read_u32(b, pos) == spec_read_u32(a, pos),
        spec_read_u64(a, pos) is Ok ==> spec_read_u64(b, pos) == spec_read_u64(a, pos),
{
    if pos + 1 <= a.len() {
        assert(a[pos] == b[pos]);
    }
    if pos + 2 <= a.len() {
        assert(a[pos + 1] == b[pos + 1]);
    }
    if pos + 4 <= a.len() {
        assert(a[pos + 2] == b[pos + 2]);
        assert(a[pos + 3] == b[pos + 3]);
    }
    if pos + 8 <= a.len() {
        assert(a[pos + 4] == b[pos + 4]);
        assert(a[pos + 5] == b[pos + 5]);
        assert(a[pos + 6] == b[pos + 6]);
        assert(a[pos + 7] == b[pos + 7]);
    }
}

pub proof fn lemma_string_stable(a: Seq<u8>, b: Seq<u8>, pos: int)
    requires
        extends(a, b),
        0 <= pos,
    ensures
        spec_read_string(a, pos) is Ok ==> spec_read_string(b, pos) == spec_read_string(a, pos),
{
    lemma_read_ints_stable(a, b, pos);
    if let Ok((len, p)) = spec_read_u64(a, pos) {
        if len <= usize::MAX {
            if let Ok(q) = spec_take(a, p, len as int) {
                assert(a.subrange(p, q) =~= b.subrange(p, q));
            }
        }
    }
}

pub proof fn lemma_value_stable(a: Seq<u8>, b: Seq<u8>, pos: int, ty: GgufValueType, depth: nat)
    requires
        extends(a, b),
        0 <= pos,
    ensures
        spec_value(a, pos, ty, depth) is Ok ==> spec_value(b, pos, ty, depth) == spec_value(a, pos, ty, depth),
    decreases depth_rank(depth), 0nat,
{
    lemma_read_ints_stable(a, b, pos);
    lemma_string_stable(a, b, pos);
    if ty == GgufValueType::Array && depth < MAX_ARRAY_DEPTH {
        if let Ok((tag, p1)) = spec_read_u32(a, pos) {
            lemma_read_ints_stable(a, b, p1);
            if let Some(et) = value_type_of(tag) {
                if let Ok((count, p2)) = spec_read_u64(a, p1) {
                    if count <= usize::MAX && count <= a.len() - p2 {
                        lemma_values_stable(a, b, p2, et, depth + 1, count as nat);
                    }
                }
            }
        }
    }
}

pub proof fn lemma_values_stable(a: Seq<u8>, b: Seq<u8>, pos: int, ty: GgufValueType, depth: nat, n: nat)
    requires
        extends(a, b),
        0 <= pos,
    ensures
        spec_values(a, pos, ty, depth, n) is Ok ==> spec_values(b, pos, ty, depth, n) == spec_values(
            a,
            pos,
            ty,
            depth,
            n,
        ),
    decreases depth_rank(depth), n + 1,
{
    if n > 0 {
        lemma_value_stable(a, b, pos, ty, depth);
        crate::laws::lemma_value_advances(a, pos, ty, depth);
        if let Ok((_, p)) = spec_value(a, pos, ty, depth) {
            lemma_values_stable(a, b, p, ty, depth, (n - 1) as nat);
        }
    }
}

pub proof fn lemma_metadata_stable(a: Seq<u8>, b: Seq<u8>, pos: int, n: nat)
    requires
        extends(a, b),
        0 <= pos,
    ensures
        spec_metadata(a, pos, n) is Ok ==> spec_metadata(b, pos, n) == spec_metadata(a, pos, n),
    decreases n,
{
    if n > 0 {
        lemma_string_stable(a, b, pos);
        if let Ok((_, p1)) = spec_read_string(a, pos) {
            lemma_read_ints_stable(a, b, p1);
            if let Ok((tag, p2)) = spec_read_u32(a, p1) {
                if let Some(ty) = value_type_of(tag) {
                    lemma_value_stable(a, b, p2, ty, 0);
                    crate::laws::lemma_value_advances(a, p2, ty, 0);
                }
            }
        }
        if let Ok((_, p)) = spec_entry(a, pos) {
            lemma_metadata_stable(a, b, p, (n - 1) as nat);
        }
    }
}

pub proof fn lemma_dims_stable(a: Seq<u8>, b: Seq<u8>, pos: int, n: nat)
    requires
        extends(a, b),
        0 <= pos,
    ensures
        spec_dims(a, pos, n) is Ok ==> spec_dims(b, pos, n) == spec_dims(a, pos, n),
    decreases n,
{
    if n > 0 {
        lemma_read_ints_stable(a, b, pos);
        if let Ok((_, p)) = spec_read_u64(a, pos) {
            lemma_dims_stable(a, b, p, (n - 1) as nat);
        }
    }
}

pub proof fn lemma_tensor_info_stable(a: Seq<u8>, b: Seq<u8>, pos: int)
    requires
        extends(a, b),
        0 <= pos,
    ensures
        spec_tensor_info(a, pos) is Ok ==> spec_tensor_info(b, pos) == spec_tensor_info(a, pos),
{
    lemma_string_stable(a, b, pos);
    if let Ok((name, p1)) = spec_read_string(a, pos) {
        lemma_read_ints_stable(a, b, p1);
        if let Ok((n_dims, p2)) = spec_read_u32(a, p1) {
            lemma_dims_stable(a, b, p2, n_dims as nat);
            crate::laws::lemma_dims_advance(a, p2, n_dims as nat);
            if let Ok((dims, p3)) = spec_dims(a, p2, n_dims as nat) {
                lemma_read_ints_stable(a, b, p3);
                if let Ok((_, p4)) = spec_read_u32(a, p3) {
                    lemma_read_ints_stable(a, b, p4);
                }
                assert(spec_tensor_info_rest(a, name, dims, p3) is Ok ==> spec_tensor_info_rest(b, name, dims, p3)
                    == spec_tensor_info_rest(a, name, dims, p3));
            }
        }
    }
}

pub proof fn lemma_tensor_infos_stable(a: Seq<u8>, b: Seq<u8>, pos: int, n: nat)
    requires
        extends(a, b),
        0 <= pos,
    ensures
        spec_tensor_infos(a, pos, n) is Ok ==> spec_tensor_infos(b, pos, n) == spec_tensor_infos(a, pos, n),
    decreases n,
{
    if n > 0 {
        lemma_tensor_info_stable(a, b, pos);
        crate::laws::lemma_tensor_info_advances(a, pos);
        if let Ok((_, p)) = spec_tensor_info(a, pos) {
            lemma_tensor_infos_stable(a, b, p, (n - 1) as nat);
        }
    }
}

pub proof fn lemma_header_stable(a: Seq<u8>, b: Seq<u8>)
    requires
        extends(a, b),
    ensures
        spec_header(a) is Ok ==> spec_header(b) == spec_header(a),
{
    if a.len() >= 24 {
        assert(a[0] == b[0] && a[1] == b[1] && a[2] == b[2] && a[3] == b[3]);
        lemma_read_ints_stable(a, b, 4);
        lemma_read_ints_stable(a, b, 8);
        lemma_read_ints_stable(a, b, 16);
    }
}

} // verus!
