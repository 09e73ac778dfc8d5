use vstd::prelude::*;

use crate::types::GgufValueType;

verus! {

/// A metadata value as the file holds it. Floating-point values are kept as
/// their IEEE-754 bit patterns.
#[derive(Debug)]
pub enum GgufValue {
    U8(u8),
    I8(i8),
    U16(u16),
    I16(i16),
    U32(u32),
    I32(i32),
    /// Bit pattern of an `f32`.
    F32(u32),
    Bool(bool),
    String(String),
    U64(u64),
    I64(i64),
    /// Bit pattern of an `f64`.
    F64(u64),
    /// Element type and elements of an array.
    Array(GgufValueType, Vec<GgufValue>),
}

/// The mathematical content of a metadata value.
pub enum ValueModel {
    U8(u8),
    I8(i8),
    U16(u16),
    I16(i16),
    U32(u32),
    I32(i32),
    F32(u32),
    Bool(bool),
    Str(Seq<char>),
    U64(u64),
    I64(i64),
    F64(u64),
    Array(GgufValueType, Seq<ValueModel>),
}

/// The model of a metadata value.
pub open spec fn value_model(v: GgufValue) -> ValueModel
    decreases v,
{
    match v {
        GgufValue::U8(x) => ValueModel::U8(x),
        GgufValue::I8(x) => ValueModel::I8(x),
        GgufValue::U16(x) => ValueModel::U16(x),
        GgufValue::I16(x) => ValueModel::I16(x),
        GgufValue::U32(x) => ValueModel::U32(x),
        GgufValue::I32(x) => ValueModel::I32(x),
        GgufValue::F32(x) => ValueModel::F32(x),
        GgufValue::Bool(x) => ValueModel::Bool(x),
        GgufValue::String(s) => ValueModel::Str(s@),
        GgufValue::U64(x) => ValueModel::U64(x),
        GgufValue::I64(x) => ValueModel::I64(x),
        GgufValue::F64(x) => ValueModel::F64(x),
        GgufValue::Array(t, vs) => ValueModel::Array(t, values_model(vs@)),
    }
}

/// The models of a sequence of metadata values, in order.
pub open spec fn values_model(vs: Seq<GgufValue>) -> Seq<ValueModel>
    decreases vs,
{
    if vs.len() == 0 {
        Seq::empty()
    } else {
        values_model(vs.drop_last()).push(value_model(vs.last()))
    }
}

impl View for GgufValue {
    type V = ValueModel;

    open spec fn view(&self) -> ValueModel {
        value_model(*self)
    }
}

/// A value read as an unsigned 64-bit integer: the unsigned integer kinds,
/// and the signed ones when they are not negative.
pub open spec fn model_as_u64(m: ValueModel) -> Option<u64> {
    match m {
        ValueModel::U8(x) => Some(x as u64),
        ValueModel::U16(x) => Some(x as u64),
        ValueModel::U32(x) => Some(x as u64),
        ValueModel::U64(x) => Some(x),
        ValueModel::I8(x) => if x >= 0 { Some(x as u64) } else { None },
        ValueModel::I16(x) => if x >= 0 { Some(x as u64) } else { None },
        ValueModel::I32(x) => if x >= 0 { Some(x as u64) } else { None },
        ValueModel::I64(x) => if x >= 0 { Some(x as u64) } else { None },
        _ => None,
    }
}

impl GgufValue {
    /// The value as a `u64`, for integer values that are not negative.
    pub fn as_u64(&self) -> (res: Option<u64>)
        ensures
            res == model_as_u64(self@),
    {
        match self {
            GgufValue::U8(x) => Some(*x as u64),
            GgufValue::U16(x) => Some(*x as u64),
            GgufValue::U32(x) => Some(*x as u64),
            GgufValue::U64(x) => Some(*x),
            GgufValue::I8(x) => if *x >= 0 { Some(*x as u64) } else { None },
            GgufValue::I16(x) => if *x >= 0 { Some(*x as u64) } else { None },
            GgufValue::I32(x) => if *x >= 0 { Some(*x as u64) } else { None },
            GgufValue::I64(x) => if *x >= 0 { Some(*x as u64) } else { None },
            _ => None,
        }
    }
}

impl Clone for GgufValue {
    /// A copy with the same content, arrays copied element by element.
    fn clone(&self) -> (res: Self)
        ensures
            res@ == self@,
        decreases self,
    {
        match self {
            GgufValue::U8(x) => GgufValue::U8(*x),
            GgufValue::I8(x) => GgufValue::I8(*x),
            GgufValue::U16(x) => GgufValue::U16(*x),
            GgufValue::I16(x) => GgufValue::I16(*x),
            GgufValue::U32(x) => GgufValue::U32(*x),
            GgufValue::I32(x) => GgufValue::I32(*x),
            GgufValue::F32(x) => GgufValue::F32(*x),
            GgufValue::Bool(x) => GgufValue::Bool(*x),
            GgufValue::String(s) => GgufValue::String(s.clone()),
            GgufValue::U64(x) => GgufValue::U64(*x),
            GgufValue::I64(x) => GgufValue::I64(*x),
            GgufValue::F64(x) => GgufValue::F64(*x),
            GgufValue::Array(t, vs) => {
                let mut out: Vec<GgufValue> = Vec::new();
                let mut i: usize = 0;
                while i < vs.len()
                    invariant
                        i <= vs.len(),
                        *self == GgufValue::Array(*t, *vs),
                        values_model(out@) == values_model(vs@.take(i as int)),
                    decreases vs.len() - i,
                {
                    assert(decreases_to!(*self => self->Array_1));
                    assert(decreases_to!(*vs => vs@));
                    assert(decreases_to!(vs@ => vs@[i as int]));
                    let c = vs[i].clone();
                    proof {
                        lemma_values_model_push(out@, c);
                        lemma_values_model_push(vs@.take(i as int), vs@[i as int]);
                        assert(vs@.take(i as int).push(vs@[i as int]) =~= vs@.take(i + 1));
                    }
                    out.push(c);
                    i = i + 1;
                }
                assert(vs@.take(vs.len() as int) =~= vs@);
                GgufValue::Array(*t, out)
            },
        }
    }
}

/// Appending a value appends its model.
pub proof fn lemma_values_model_push(vs: Seq<GgufValue>, v: GgufValue)
    ensures
        values_model(vs.push(v)) == values_model(vs).push(value_model(v)),
{
    assert(vs.push(v).drop_last() =~= vs);
}

/// How deeply arrays nest inside a value: 0 for a scalar or string, one more
/// than its deepest element for an array.
pub open spec fn value_depth(m: ValueModel) -> nat
    decreases m,
{
    match m {
        ValueModel::Array(_, vs) => 1 + values_depth(vs),
        _ => 0,
    }
}

/// The deepest nesting among a sequence of values (0 for none).
pub open spec fn values_depth(vs: Seq<ValueModel>) -> nat
    decreases vs,
{
    if vs.len() == 0 {
        0
    } else {
        let a = value_depth(vs[0]);
        let b = values_depth(vs.drop_first());
        if a >= b { a } else { b }
    }
}

} // verus!
