use vstd::prelude::*;

use crate::error::{ErrorModel, GgufError};
use crate::reader::{
    lemma_prepend_push, prepend_items, spec_read_string, spec_read_u32, spec_read_u64, Reader,
};
use crate::types::{
    dims_product, ggml_type_of, spec_data_size, spec_element_size, GgmlType, GgufTensorInfo,
    TensorInfoModel, MAX_DIMS,
};

verus! {

/// The models of tensor infos, in order.
pub open spec fn tensors_model(ts: Seq<GgufTensorInfo>) -> Seq<TensorInfoModel> {
    ts.map_values(|t: GgufTensorInfo| t@)
}

/// `n` consecutive little-endian `u64` dimensions at `pos`.
pub open spec fn spec_dims(buf: Seq<u8>, pos: int, n: nat) -> Result<(Seq<u64>, int), ErrorModel>
    decreases n,
{
    if n == 0 {
        Ok((Seq::empty(), pos))
    } else {
        match spec_read_u64(buf, pos) {
            Err(e) => Err(e),
            Ok((d, p)) => prepend_items(seq![d], spec_dims(buf, p, (n - 1) as nat)),
        }
    }
}

/// The part of a tensor info after its dimensions: `u32` element type id,
/// then `u64` data offset.
pub open spec fn spec_tensor_info_rest(buf: Seq<u8>, name: Seq<char>, dims: Seq<u64>, pos: int) -> Result<
    (TensorInfoModel, int),
    ErrorModel,
> {
    match spec_read_u32(buf, pos) {
        Err(e) => Err(e),
        Ok((id, p1)) => match ggml_type_of(id) {
            None => Err(ErrorModel::UnknownGgmlType(id)),
            Some(ggml_type) => match spec_read_u64(buf, p1) {
                Err(e) => Err(e),
                Ok((offset, p2)) => Ok((TensorInfoModel { name, dims, ggml_type, offset }, p2)),
            },
        },
    }
}

/// One tensor info at `pos`: string name, `u32` dimension count (at most 8),
/// the `u64` dimensions, `u32` element type id, `u64` data offset.
pub open spec fn spec_tensor_info(buf: Seq<u8>, pos: int) -> Result<(TensorInfoModel, int), ErrorModel> {
    match spec_read_string(buf, pos) {
        Err(e) => Err(e),
        Ok((name, p1)) => match spec_read_u32(buf, p1) {
            Err(e) => Err(e),
            Ok((n_dims, p2)) => if n_dims > MAX_DIMS {
                Err(ErrorModel::TooManyDims { name, n_dims })
            } else {
                match spec_dims(buf, p2, n_dims as nat) {
                    Err(e) => Err(e),
                    Ok((dims, p3)) => spec_tensor_info_rest(buf, name, dims, p3),
                }
            },
        },
    }
}

/// `n` consecutive tensor infos at `pos`.
pub open spec fn spec_tensor_infos(buf: Seq<u8>, pos: int, n: nat) -> Result<
    (Seq<TensorInfoModel>, int),
    ErrorModel,
>
    decreases n,
{
    if n == 0 {
        Ok((Seq::empty(), pos))
    } else {
        match spec_tensor_info(buf, pos) {
            Err(e) => Err(e),
            Ok((t, p)) => prepend_items(seq![t], spec_tensor_infos(buf, p, (n - 1) as nat)),
        }
    }
}

/// Read one tensor info.
pub(crate) fn read_tensor_info(r: &mut Reader) -> (res: Result<GgufTensorInfo, GgufError>)
    requires
        old(r).pos <= old(r).buf@.len(),
    ensures
        final(r).buf@ == old(r).buf@,
        final(r).pos <= final(r).buf@.len(),
        final(r).pos >= old(r).pos,
        match spec_tensor_info(old(r).buf@, old(r).pos as int) {
            Ok((t, p)) => res is Ok && res->Ok_0@ == t && final(r).pos == p,
            Err(e) => res is Err && res->Err_0@ == e,
        },
{
    let name = match r.string() {
        Ok(s) => s,
        Err(e) => return Err(e),
    };
    let n_dims = match r.u32() {
        Ok(n) => n,
        Err(e) => return Err(e),
    };
    if n_dims > MAX_DIMS {
        return Err(GgufError::TooManyDims { name, n_dims });
    }
    let ghost buf = r.buf@;
    let ghost start = r.pos as int;
    let mut dims: Vec<u64> = Vec::new();
    let mut i: u32 = 0;
    while i < n_dims
        invariant
            r.buf@ == buf,
            buf == old(r).buf@,
            r.pos <= buf.len(),
            r.pos >= old(r).pos,
            i <= n_dims,
            spec_tensor_info(buf, old(r).pos as int) == match spec_dims(buf, start, n_dims as nat) {
                Err(e) => Err(e),
                Ok((ds, p3)) => spec_tensor_info_rest(buf, name@, ds, p3),
            },
            prepend_items(dims@, spec_dims(buf, r.pos as int, (n_dims - i) as nat)) == spec_dims(
                buf,
                start,
                n_dims as nat,
            ),
        decreases n_dims - i,
    {
        let ghost before = dims@;
        let d = match r.u64() {
            Ok(d) => d,
            Err(e) => return Err(e),
        };
        proof {
            lemma_prepend_push(before, d, spec_dims(buf, r.pos as int, (n_dims - i - 1) as nat));
        }
        dims.push(d);
        i = i + 1;
    }
    assert(dims@ + Seq::<u64>::empty() =~= dims@);
    let id = match r.u32() {
        Ok(t) => t,
        Err(e) => return Err(e),
    };
    let ggml_type = match GgmlType::from_u32(id) {
        Ok(t) => t,
        Err(e) => return Err(e),
    };
    let offset = match r.u64() {
        Ok(o) => o,
        Err(e) => return Err(e),
    };
    Ok(GgufTensorInfo { name, dims, ggml_type, offset })
}

/// Read `count` tensor infos.
pub(crate) fn read_tensor_infos(r: &mut Reader, count: u64) -> (res: Result<Vec<GgufTensorInfo>, GgufError>)
    requires
        old(r).pos <= old(r).buf@.len(),
    ensures
        final(r).buf@ == old(r).buf@,
        final(r).pos <= final(r).buf@.len(),
        final(r).pos >= old(r).pos,
        match spec_tensor_infos(old(r).buf@, old(r).pos as int, count as nat) {
            Ok((ts, p)) => res is Ok && tensors_model(res->Ok_0@) == ts && final(r).pos == p,
            Err(e) => res is Err && res->Err_0@ == e,
        },
{
    let ghost buf = r.buf@;
    let ghost start = r.pos as int;
    let mut tensors: Vec<GgufTensorInfo> = Vec::new();
    let mut i: u64 = 0;
    while i < count
        invariant
            r.buf@ == buf,
            buf == old(r).buf@,
            start == old(r).pos as int,
            r.pos <= buf.len(),
            r.pos >= start,
            i <= count,
            prepend_items(tensors_model(tensors@), spec_tensor_infos(buf, r.pos as int, (count - i) as nat))
                == spec_tensor_infos(buf, start, count as nat),
        decreases count - i,
    {
        let ghost before = tensors@;
        let t = match read_tensor_info(r) {
            Ok(t) => t,
            Err(e) => return Err(e),
        };
        proof {
            assert(tensors_model(before.push(t)) =~= tensors_model(before).push(t@));
            lemma_prepend_push(
                tensors_model(before),
                t@,
                spec_tensor_infos(buf, r.pos as int, (count - i - 1) as nat),
            );
        }
        tensors.push(t);
        i = i + 1;
    }
    assert(tensors_model(tensors@) + Seq::<TensorInfoModel>::empty() =~= tensors_model(tensors@));
    Ok(tensors)
}

/// A dimension of zero makes the product zero.
proof fn lemma_product_zero(dims: Seq<u64>, k: int)
    requires
        0 <= k < dims.len(),
        dims[k] == 0,
    ensures
        dims_product(dims) == 0,
    decreases dims.len(),
{
    if k < dims.len() - 1 {
        assert(dims.drop_last()[k] == dims[k]);
        lemma_product_zero(dims.drop_last(), k);
    }
    assert(dims_product(dims) == dims_product(dims.drop_last()) * dims.last());
}

/// With no zero dimension, the product of a prefix is at most the product of
/// a longer prefix.
proof fn lemma_product_prefix_monotone(dims: Seq<u64>, i: int, j: int)
    requires
        0 <= i <= j <= dims.len(),
        forall|k: int| 0 <= k < dims.len() ==> dims[k] >= 1,
    ensures
        dims_product(dims.take(i)) <= dims_product(dims.take(j)),
    decreases j - i,
{
    if i < j {
        lemma_product_prefix_monotone(dims, i, j - 1);
        assert(dims.take(j).drop_last() =~= dims.take(j - 1));
        let a = dims_product(dims.take(j - 1));
        let b = dims[j - 1] as nat;
        assert(a <= a * b) by (nonlinear_arith)
            requires
                b >= 1,
        ;
    }
}

impl GgufTensorInfo {
    /// Byte size of the tensor's data, for element types with a fixed
    /// element size, when it fits in a `u64`.
    pub fn data_size(&self) -> (res: Option<u64>)
        ensures
            res == spec_data_size(self@),
    {
        let size = match self.ggml_type.element_size() {
            Some(s) => s,
            None => return None,
        };
        assert(size >= 1);
        let n = self.dims.len();
        let mut i: usize = 0;
        while i < n
            invariant
                n == self.dims@.len(),
                i <= n,
                spec_element_size(self.ggml_type) == Some(size),
                forall|k: int| 0 <= k < i ==> self.dims@[k] >= 1,
            decreases n - i,
        {
            if self.dims[i] == 0 {
                proof {
                    lemma_product_zero(self.dims@, i as int);
                }
                return Some(0);
            }
            i = i + 1;
        }
        let mut product: u64 = 1;
        let mut j: usize = 0;
        while j < n
            invariant
                n == self.dims@.len(),
                j <= n,
                size >= 1,
                spec_element_size(self.ggml_type) == Some(size),
                forall|k: int| 0 <= k < n ==> self.dims@[k] >= 1,
                product == dims_product(self.dims@.take(j as int)),
            decreases n - j,
        {
            assert(self.dims@.take(j + 1).drop_last() =~= self.dims@.take(j as int));
            match product.checked_mul(self.dims[j]) {
                Some(p) => {
                    product = p;
                },
                None => {
                    proof {
                        lemma_product_prefix_monotone(self.dims@, j + 1, n as int);
                        assert(self.dims@.take(n as int) =~= self.dims@);
                        let total = dims_product(self.dims@);
                        assert(total <= total * size) by (nonlinear_arith)
                            requires
                                size >= 1,
                        ;
                    }
                    return None;
                },
            }
            j = j + 1;
        }
        assert(self.dims@.take(n as int) =~= self.dims@);
        product.checked_mul(size)
    }
}

} // verus!
