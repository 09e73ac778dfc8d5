use vstd::prelude::*;
use vstd::slice::{slice_subrange, slice_to_vec};
use vstd::utf8::{decode_utf8, valid_utf8};

use crate::error::{ErrorModel, GgufError};
use crate::types::{value_type_of, GgufValueType, MAX_ARRAY_DEPTH};
use crate::value::{lemma_values_model_push, value_model, values_model, GgufValue, ValueModel};

verus! {

// ----- The byte grammar, as spec functions over the whole buffer -----

/// Taking `n` bytes at `pos`: the position after them, or end of input.
pub open spec fn spec_take(buf: Seq<u8>, pos: int, n: int) -> Result<int, ErrorModel> {
    if pos + n <= buf.len() {
        Ok(pos + n)
    } else {
        Err(ErrorModel::UnexpectedEof { offset: pos as usize })
    }
}

/// The little-endian value of the two bytes at `p`.
pub open spec fn le_u16(b: Seq<u8>, p: int) -> int {
    b[p] + 256 * b[p + 1]
}

/// The little-endian value of the four bytes at `p`.
pub open spec fn le_u32(b: Seq<u8>, p: int) -> int {
    le_u16(b, p) + 65536 * le_u16(b, p + 2)
}

/// The little-endian value of the eight bytes at `p`.
pub open spec fn le_u64(b: Seq<u8>, p: int) -> int {
    le_u32(b, p) + 4294967296 * le_u32(b, p + 4)
}

/// Two's-complement reading of a byte.
pub open spec fn signed8(x: u8) -> i8 {
    if x < 128 { x as i8 } else { (x - 256) as i8 }
}

/// Two's-complement reading of a 16-bit word.
pub open spec fn signed16(x: u16) -> i16 {
    if x < 0x8000 { x as i16 } else { (x - 0x1_0000) as i16 }
}

/// Two's-complement reading of a 32-bit word.
pub open spec fn signed32(x: u32) -> i32 {
    if x < 0x8000_0000 { x as i32 } else { (x - 0x1_0000_0000) as i32 }
}

/// Two's-complement reading of a 64-bit word.
pub open spec fn signed64(x: u64) -> i64 {
    if x < 0x8000_0000_0000_0000 { x as i64 } else { (x - 0x1_0000_0000_0000_0000) as i64 }
}

pub open spec fn spec_read_u8(buf: Seq<u8>, pos: int) -> Result<(u8, int), ErrorModel> {
    match spec_take(buf, pos, 1) {
        Ok(p) => Ok((buf[pos], p)),
        Err(e) => Err(e),
    }
}

pub open spec fn spec_read_u16(buf: Seq<u8>, pos: int) -> Result<(u16, int), ErrorModel> {
    match spec_take(buf, pos, 2) {
        Ok(p) => Ok((le_u16(buf, pos) as u16, p)),
        Err(e) => Err(e),
    }
}

pub open spec fn spec_read_u32(buf: Seq<u8>, pos: int) -> Result<(u32, int), ErrorModel> {
    match spec_take(buf, pos, 4) {
        Ok(p) => Ok((le_u32(buf, pos) as u32, p)),
        Err(e) => Err(e),
    }
}

pub open spec fn spec_read_u64(buf: Seq<u8>, pos: int) -> Result<(u64, int), ErrorModel> {
    match spec_take(buf, pos, 8) {
        Ok(p) => Ok((le_u64(buf, pos) as u64, p)),
        Err(e) => Err(e),
    }
}

/// A string: a `u64` byte length, then that many bytes of UTF-8.
pub open spec fn spec_read_string(buf: Seq<u8>, pos: int) -> Result<(Seq<char>, int), ErrorModel> {
    match spec_read_u64(buf, pos) {
        Err(e) => Err(e),
        Ok((len, p)) => if len > usize::MAX {
            Err(ErrorModel::StringLengthOverflow)
        } else {
            match spec_take(buf, p, len as int) {
                Err(e) => Err(e),
                Ok(q) => if valid_utf8(buf.subrange(p, q)) {
                    Ok((decode_utf8(buf.subrange(p, q)), q))
                } else {
                    Err(ErrorModel::InvalidUtf8)
                },
            }
        },
    }
}

/// Termination measure for nested arrays: shrinks as the depth grows to the limit.
pub open spec fn depth_rank(depth: nat) -> nat {
    if depth <= MAX_ARRAY_DEPTH { (MAX_ARRAY_DEPTH + 1 - depth) as nat } else { 0 }
}

/// `prefix` in front of the items of a successful read; an error unchanged.
pub open spec fn prepend_items<T>(prefix: Seq<T>, r: Result<(Seq<T>, int), ErrorModel>) -> Result<
    (Seq<T>, int),
    ErrorModel,
> {
    match r {
        Ok((items, p)) => Ok((prefix + items, p)),
        Err(e) => Err(e),
    }
}

/// A metadata value of type `ty` at `pos`, inside `depth` enclosing arrays.
pub open spec fn spec_value(buf: Seq<u8>, pos: int, ty: GgufValueType, depth: nat) -> Result<
    (ValueModel, int),
    ErrorModel,
>
    decreases depth_rank(depth), 0nat,
{
    match ty {
        GgufValueType::U8 => match spec_read_u8(buf, pos) {
            Ok((x, p)) => Ok((ValueModel::U8(x), p)),
            Err(e) => Err(e),
        },
        GgufValueType::I8 => match spec_read_u8(buf, pos) {
            Ok((x, p)) => Ok((ValueModel::I8(signed8(x)), p)),
            Err(e) => Err(e),
        },
        GgufValueType::U16 => match spec_read_u16(buf, pos) {
            Ok((x, p)) => Ok((ValueModel::U16(x), p)),
            Err(e) => Err(e),
        },
        GgufValueType::I16 => match spec_read_u16(buf, pos) {
            Ok((x, p)) => Ok((ValueModel::I16(signed16(x)), p)),
            Err(e) => Err(e),
        },
        GgufValueType::U32 => match spec_read_u32(buf, pos) {
            Ok((x, p)) => Ok((ValueModel::U32(x), p)),
            Err(e) => Err(e),
        },
        GgufValueType::I32 => match spec_read_u32(buf, pos) {
            Ok((x, p)) => Ok((ValueModel::I32(signed32(x)), p)),
            Err(e) => Err(e),
        },
        GgufValueType::F32 => match spec_read_u32(buf, pos) {
            Ok((x, p)) => Ok((ValueModel::F32(x), p)),
            Err(e) => Err(e),
        },
        GgufValueType::Bool => match spec_read_u8(buf, pos) {
            Ok((x, p)) => Ok((ValueModel::Bool(x != 0), p)),
            Err(e) => Err(e),
        },
        GgufValueType::String => match spec_read_string(buf, pos) {
            Ok((s, p)) => Ok((ValueModel::Str(s), p)),
            Err(e) => Err(e),
        },
        GgufValueType::U64 => match spec_read_u64(buf, pos) {
            Ok((x, p)) => Ok((ValueModel::U64(x), p)),
            Err(e) => Err(e),
        },
        GgufValueType::I64 => match spec_read_u64(buf, pos) {
            Ok((x, p)) => Ok((ValueModel::I64(signed64(x)), p)),
            Err(e) => Err(e),
        },
        GgufValueType::F64 => match spec_read_u64(buf, pos) {
            Ok((x, p)) => Ok((ValueModel::F64(x), p)),
            Err(e) => Err(e),
        },
        GgufValueType::Array => if depth >= MAX_ARRAY_DEPTH {
            Err(ErrorModel::ArrayNestingTooDeep)
        } else {
            match spec_read_u32(buf, pos) {
                Err(e) => Err(e),
                Ok((tag, p1)) => match value_type_of(tag) {
                    None => Err(ErrorModel::UnknownValueType(tag)),
                    Some(et) => match spec_read_u64(buf, p1) {
                        Err(e) => Err(e),
                        Ok((count, p2)) => if count > usize::MAX {
                            Err(ErrorModel::ArrayCountOverflow)
                        } else if count > buf.len() - p2 {
                            Err(ErrorModel::ArrayCountExceedsRemaining { count: count as usize })
                        } else {
                            match spec_values(buf, p2, et, depth + 1, count as nat) {
                                Err(e) => Err(e),
                                Ok((vs, p3)) => Ok((ValueModel::Array(et, vs), p3)),
                            }
                        },
                    },
                },
            }
        },
    }
}

/// `n` consecutive values of type `ty` at `pos`, inside `depth` enclosing arrays.
pub open spec fn spec_values(buf: Seq<u8>, pos: int, ty: GgufValueType, depth: nat, n: nat) -> Result<
    (Seq<ValueModel>, int),
    ErrorModel,
>
    decreases depth_rank(depth), n + 1,
{
    if n == 0 {
        Ok((Seq::empty(), pos))
    } else {
        match spec_value(buf, pos, ty, depth) {
            Err(e) => Err(e),
            Ok((v, p)) => prepend_items(seq![v], spec_values(buf, p, ty, depth, (n - 1) as nat)),
        }
    }
}

/// Putting `prefix.push(x)` in front equals putting `x`, then `prefix`, in front.
pub proof fn lemma_prepend_push<T>(prefix: Seq<T>, x: T, r: Result<(Seq<T>, int), ErrorModel>)
    ensures
        prepend_items(prefix.push(x), r) == prepend_items(prefix, prepend_items(seq![x], r)),
{
    match r {
        Ok((items, p)) => {
            assert(prefix.push(x) + items =~= prefix + (seq![x] + items));
        },
        Err(e) => {},
    }
}

/// What a read of a plain value promises: the value and end position the
/// grammar gives, or the grammar's error with the position left at `start`.
pub open spec fn read_matches<T>(
    expected: Result<(T, int), ErrorModel>,
    res: Result<T, GgufError>,
    start: usize,
    end: usize,
) -> bool {
    match expected {
        Ok((x, p)) => res == Ok::<T, GgufError>(x) && end == p,
        Err(e) => res is Err && res->Err_0@ == e && end == start,
    }
}

/// Calls `String::from_utf8` on `bytes` and keeps the string, if any.
/// Trusted: the result is a string exactly when the bytes are valid UTF-8,
/// and its characters are the ones the bytes encode (std's documented behaviour).
#[verifier::external_body]
fn string_from_utf8(bytes: Vec<u8>) -> (res: Option<String>)
    ensures
        res is Some <==> valid_utf8(bytes@),
        res matches Some(s) ==> s@ == decode_utf8(bytes@),
{
    String::from_utf8(bytes).ok()
}

fn signed_i8(x: u8) -> (r: i8)
    ensures
        r == signed8(x),
{
    if x < 128 { x as i8 } else { (x as i16 - 256) as i8 }
}

fn signed_i16(x: u16) -> (r: i16)
    ensures
        r == signed16(x),
{
    if x < 0x8000 { x as i16 } else { (x as i32 - 0x1_0000) as i16 }
}

fn signed_i32(x: u32) -> (r: i32)
    ensures
        r == signed32(x),
{
    if x < 0x8000_0000 { x as i32 } else { (x as i64 - 0x1_0000_0000) as i32 }
}

fn signed_i64(x: u64) -> (r: i64)
    ensures
        r == signed64(x),
{
    if x < 0x8000_0000_0000_0000 {
        x as i64
    } else {
        ((x - 0x8000_0000_0000_0000) as i64) - 0x7fff_ffff_ffff_ffff - 1
    }
}

/// Little-endian cursor over a byte slice.
pub(crate) struct Reader<'a> {
    pub(crate) buf: &'a [u8],
    pub(crate) pos: usize,
}

impl<'a> Reader<'a> {
    /// The next `n` bytes; the position moves past them.
    pub(crate) fn take(&mut self, n: usize) -> (res: Result<&'a [u8], GgufError>)
        requires
            old(self).pos <= old(self).buf@.len(),
        ensures
            final(self).buf@ == old(self).buf@,
            final(self).pos <= final(self).buf@.len(),
            match spec_take(old(self).buf@, old(self).pos as int, n as int) {
                Ok(p) => final(self).pos == p && res is Ok && res->Ok_0@ == old(self).buf@.subrange(
                    old(self).pos as int,
                    p,
                ),
                Err(e) => res is Err && res->Err_0@ == e && final(self).pos == old(self).pos,
            },
    {
        let len = self.buf.len();
        match self.pos.checked_add(n) {
            Some(end) => {
                if end <= len {
                    let buf: &'a [u8] = self.buf;
                    let out = slice_subrange(buf, self.pos, end);
                    self.pos = end;
                    Ok(out)
                } else {
                    Err(GgufError::UnexpectedEof { offset: self.pos })
                }
            },
            None => Err(GgufError::UnexpectedEof { offset: self.pos }),
        }
    }

    pub(crate) fn u8(&mut self) -> (res: Result<u8, GgufError>)
        requires
            old(self).pos <= old(self).buf@.len(),
        ensures
            final(self).buf@ == old(self).buf@,
            final(self).pos <= final(self).buf@.len(),
            read_matches(spec_read_u8(old(self).buf@, old(self).pos as int), res, old(self).pos, final(self).pos),
    {
        match self.take(1) {
            Ok(b) => Ok(b[0]),
            Err(e) => Err(e),
        }
    }

    pub(crate) fn u16(&mut self) -> (res: Result<u16, GgufError>)
        requires
            old(self).pos <= old(self).buf@.len(),
        ensures
            final(self).buf@ == old(self).buf@,
            final(self).pos <= final(self).buf@.len(),
            read_matches(spec_read_u16(old(self).buf@, old(self).pos as int), res, old(self).pos, final(self).pos),
    {
        let ghost p = self.pos as int;
        match self.take(2) {
            Ok(b) => {
                let r = b[0] as u16 + (b[1] as u16) * 256;
                assert(r == le_u16(self.buf@, p));
                Ok(r)
            },
            Err(e) => Err(e),
        }
    }

    pub(crate) fn u32(&mut self) -> (res: Result<u32, GgufError>)
        requires
            old(self).pos <= old(self).buf@.len(),
        ensures
            final(self).buf@ == old(self).buf@,
            final(self).pos <= final(self).buf@.len(),
            read_matches(spec_read_u32(old(self).buf@, old(self).pos as int), res, old(self).pos, final(self).pos),
    {
        let ghost p = self.pos as int;
        match self.take(4) {
            Ok(b) => {
                let r = b[0] as u32 + (b[1] as u32) * 0x100 + (b[2] as u32) * 0x1_0000 + (b[3] as u32)
                    * 0x100_0000;
                assert(r == le_u32(self.buf@, p));
                Ok(r)
            },
            Err(e) => Err(e),
        }
    }

    pub(crate) fn u64(&mut self) -> (res: Result<u64, GgufError>)
        requires
            old(self).pos <= old(self).buf@.len(),
        ensures
            final(self).buf@ == old(self).buf@,
            final(self).pos <= final(self).buf@.len(),
            read_matches(spec_read_u64(old(self).buf@, old(self).pos as int), res, old(self).pos, final(self).pos),
    {
        let ghost p = self.pos as int;
        match self.take(8) {
            Ok(b) => {
                let lo = b[0] as u64 + (b[1] as u64) * 0x100 + (b[2] as u64) * 0x1_0000 + (b[3] as u64)
                    * 0x100_0000;
                let hi = b[4] as u64 + (b[5] as u64) * 0x100 + (b[6] as u64) * 0x1_0000 + (b[7] as u64)
                    * 0x100_0000;
                let r = lo + hi * 0x1_0000_0000;
                assert(r == le_u64(self.buf@, p));
                Ok(r)
            },
            Err(e) => Err(e),
        }
    }

    /// The bit pattern of a little-endian single-precision float.
    pub(crate) fn float32_bits(&mut self) -> (res: Result<u32, GgufError>)
        requires
            old(self).pos <= old(self).buf@.len(),
        ensures
            final(self).buf@ == old(self).buf@,
            final(self).pos <= final(self).buf@.len(),
            read_matches(spec_read_u32(old(self).buf@, old(self).pos as int), res, old(self).pos, final(self).pos),
    {
        self.u32()
    }

    /// The bit pattern of a little-endian double-precision float.
    pub(crate) fn float64_bits(&mut self) -> (res: Result<u64, GgufError>)
        requires
            old(self).pos <= old(self).buf@.len(),
        ensures
            final(self).buf@ == old(self).buf@,
            final(self).pos <= final(self).buf@.len(),
            read_matches(spec_read_u64(old(self).buf@, old(self).pos as int), res, old(self).pos, final(self).pos),
    {
        self.u64()
    }

    pub(crate) fn string(&mut self) -> (res: Result<String, GgufError>)
        requires
            old(self).pos <= old(self).buf@.len(),
        ensures
            final(self).buf@ == old(self).buf@,
            final(self).pos <= final(self).buf@.len(),
            final(self).pos >= old(self).pos,
            match spec_read_string(old(self).buf@, old(self).pos as int) {
                Ok((s, p)) => res is Ok && res->Ok_0@ == s && final(self).pos == p,
                Err(e) => res is Err && res->Err_0@ == e,
            },
    {
        let len = match self.u64() {
            Ok(l) => l,
            Err(e) => return Err(e),
        };
        if len > usize::MAX as u64 {
            return Err(GgufError::StringLengthOverflow);
        }
        let bytes = match self.take(len as usize) {
            Ok(b) => b,
            Err(e) => return Err(e),
        };
        match string_from_utf8(slice_to_vec(bytes)) {
            Some(s) => Ok(s),
            None => Err(GgufError::InvalidUtf8),
        }
    }
    /// A metadata value of type `ty`, inside `depth` enclosing arrays.
    pub(crate) fn value(&mut self, ty: GgufValueType, depth: u32) -> (res: Result<GgufValue, GgufError>)
        requires
            old(self).pos <= old(self).buf@.len(),
        ensures
            final(self).buf@ == old(self).buf@,
            final(self).pos <= final(self).buf@.len(),
            final(self).pos >= old(self).pos,
            res is Err && ((ty != GgufValueType::String && ty != GgufValueType::Array) || (ty
                == GgufValueType::Array && depth >= MAX_ARRAY_DEPTH)) ==> final(self).pos == old(self).pos,
            match spec_value(old(self).buf@, old(self).pos as int, ty, depth as nat) {
                Ok((m, p)) => res is Ok && res->Ok_0@ == m && final(self).pos == p,
                Err(e) => res is Err && res->Err_0@ == e,
            },
        decreases depth_rank(depth as nat),
    {
        match ty {
            GgufValueType::U8 => match self.u8() {
                Ok(x) => Ok(GgufValue::U8(x)),
                Err(e) => Err(e),
            },
            GgufValueType::I8 => match self.u8() {
                Ok(x) => Ok(GgufValue::I8(signed_i8(x))),
                Err(e) => Err(e),
            },
            GgufValueType::U16 => match self.u16() {
                Ok(x) => Ok(GgufValue::U16(x)),
                Err(e) => Err(e),
            },
            GgufValueType::I16 => match self.u16() {
                Ok(x) => Ok(GgufValue::I16(signed_i16(x))),
                Err(e) => Err(e),
            },
            GgufValueType::U32 => match self.u32() {
                Ok(x) => Ok(GgufValue::U32(x)),
                Err(e) => Err(e),
            },
            GgufValueType::I32 => match self.u32() {
                Ok(x) => Ok(GgufValue::I32(signed_i32(x))),
                Err(e) => Err(e),
            },
            GgufValueType::F32 => match self.float32_bits() {
                Ok(x) => Ok(GgufValue::F32(x)),
                Err(e) => Err(e),
            },
            GgufValueType::Bool => match self.u8() {
                Ok(x) => Ok(GgufValue::Bool(x != 0)),
                Err(e) => Err(e),
            },
            GgufValueType::String => match self.string() {
                Ok(s) => Ok(GgufValue::String(s)),
                Err(e) => Err(e),
            },
            GgufValueType::U64 => match self.u64() {
                Ok(x) => Ok(GgufValue::U64(x)),
                Err(e) => Err(e),
            },
            GgufValueType::I64 => match self.u64() {
                Ok(x) => Ok(GgufValue::I64(signed_i64(x))),
                Err(e) => Err(e),
            },
            GgufValueType::F64 => match self.float64_bits() {
                Ok(x) => Ok(GgufValue::F64(x)),
                Err(e) => Err(e),
            },
            GgufValueType::Array => {
                if depth >= MAX_ARRAY_DEPTH {
                    return Err(GgufError::ArrayNestingTooDeep);
                }
                let tag = match self.u32() {
                    Ok(t) => t,
                    Err(e) => return Err(e),
                };
                let elem_ty = match GgufValueType::from_u32(tag) {
                    Ok(t) => t,
                    Err(e) => return Err(e),
                };
                let count = match self.u64() {
                    Ok(c) => c,
                    Err(e) => return Err(e),
                };
                if count > usize::MAX as u64 {
                    return Err(GgufError::ArrayCountOverflow);
                }
                let count = count as usize;
                // Every element occupies at least one byte on the wire.
                if count > self.buf.len() - self.pos {
                    return Err(GgufError::ArrayCountExceedsRemaining { count });
                }
                let ghost buf = self.buf@;
                let ghost start = self.pos as int;
                let ghost inner = depth as nat + 1;
                let ghost whole = spec_value(old(self).buf@, old(self).pos as int, ty, depth as nat);
                assert(whole == match spec_values(buf, start, elem_ty, inner, count as nat) {
                    Err(e) => Err(e),
                    Ok((vs, p3)) => Ok((ValueModel::Array(elem_ty, vs), p3)),
                });
                let mut values: Vec<GgufValue> = Vec::new();
                let mut i: usize = 0;
                while i < count
                    invariant
                        self.buf@ == buf,
                        self.pos <= buf.len(),
                        self.pos >= old(self).pos,
                        i <= count,
                        depth < MAX_ARRAY_DEPTH,
                        ty == GgufValueType::Array,
                        inner == depth + 1,
                        buf == old(self).buf@,
                        whole == spec_value(old(self).buf@, old(self).pos as int, ty, depth as nat),
                        whole == match spec_values(buf, start, elem_ty, inner, count as nat) {
                            Err(e) => Err(e),
                            Ok((vs, p3)) => Ok((ValueModel::Array(elem_ty, vs), p3)),
                        },
                        prepend_items(
                            values_model(values@),
                            spec_values(buf, self.pos as int, elem_ty, inner, (count - i) as nat),
                        ) == spec_values(buf, start, elem_ty, inner, count as nat),
                    decreases count - i,
                {
                    let ghost before = values@;
                    let ghost at = self.pos as int;
                    let v = match self.value(elem_ty, depth + 1) {
                        Ok(v) => v,
                        Err(e) => return Err(e),
                    };
                    proof {
                        lemma_values_model_push(before, v);
                        lemma_prepend_push(
                            values_model(before),
                            value_model(v),
                            spec_values(buf, self.pos as int, elem_ty, inner, (count - i - 1) as nat),
                        );
                    }
                    values.push(v);
                    i = i + 1;
                }
                assert(values_model(values@) + Seq::<ValueModel>::empty() =~= values_model(values@));
                Ok(GgufValue::Array(elem_ty, values))
            },
        }
    }
}

} // verus!
