use vstd::prelude::*;
use vstd::utf8::encode_utf8_decode_utf8;

use crate::error::{ErrorModel, GgufError};
use crate::reader::{
    lemma_prepend_push, prepend_items, spec_read_string, spec_read_u32, spec_value, Reader,
};
use crate::types::{value_type_of, GgufValueType, DEFAULT_ALIGNMENT};
use crate::value::{model_as_u64, GgufValue, ValueModel};

verus! {

/// The model of one metadata entry: key characters and value.
pub type EntryModel = (Seq<char>, ValueModel);

/// The models of metadata entries, in order.
pub open spec fn metadata_model(m: Seq<(String, GgufValue)>) -> Seq<EntryModel> {
    m.map_values(|e: (String, GgufValue)| (e.0@, e.1@))
}

/// One metadata entry at `pos`: a string key, a `u32` value-type tag, then
/// a value of that type at nesting depth 0.
pub open spec fn spec_entry(buf: Seq<u8>, pos: int) -> Result<(EntryModel, int), ErrorModel> {
    match spec_read_string(buf, pos) {
        Err(e) => Err(e),
        Ok((key, p1)) => match spec_read_u32(buf, p1) {
            Err(e) => Err(e),
            Ok((tag, p2)) => match value_type_of(tag) {
                None => Err(ErrorModel::UnknownValueType(tag)),
                Some(ty) => match spec_value(buf, p2, ty, 0) {
                    Err(e) => Err(e),
                    Ok((v, p3)) => Ok(((key, v), p3)),
                },
            },
        },
    }
}

/// `n` consecutive metadata entries at `pos`.
pub open spec fn spec_metadata(buf: Seq<u8>, pos: int, n: nat) -> Result<(Seq<EntryModel>, int), ErrorModel>
    decreases n,
{
    if n == 0 {
        Ok((Seq::empty(), pos))
    } else {
        match spec_entry(buf, pos) {
            Err(e) => Err(e),
            Ok((kv, p)) => prepend_items(seq![kv], spec_metadata(buf, p, (n - 1) as nat)),
        }
    }
}

/// Index of the first entry whose key is `key`.
pub open spec fn first_key_index(meta: Seq<EntryModel>, key: Seq<char>) -> Option<int>
    decreases meta.len(),
{
    if meta.len() == 0 {
        None
    } else {
        match first_key_index(meta.drop_last(), key) {
            Some(i) => Some(i),
            None => if meta.last().0 == key {
                Some(meta.len() - 1)
            } else {
                None
            },
        }
    }
}

/// The key that sets the alignment of the tensor-data section.
pub open spec fn alignment_key() -> Seq<char> {
    "general.alignment"@
}

/// `a` is a power of two.
pub open spec fn is_power_of_two(a: nat) -> bool
    decreases a,
{
    if a == 0 {
        false
    } else if a == 1 {
        true
    } else {
        a % 2 == 0 && is_power_of_two(a / 2)
    }
}

/// The alignment that the metadata sets: the first `general.alignment`
/// entry, read as an unsigned integer, must be a power of two of at least 8;
/// without such an entry, or when its value is no unsigned integer, 32.
pub open spec fn spec_alignment(meta: Seq<EntryModel>) -> Result<u64, ErrorModel> {
    match first_key_index(meta, alignment_key()) {
        Some(i) => match model_as_u64(meta[i].1) {
            Some(a) => if is_power_of_two(a as nat) && a >= 8 {
                Ok(a)
            } else {
                Err(ErrorModel::InvalidAlignment(a))
            },
            None => Ok(DEFAULT_ALIGNMENT),
        },
        None => Ok(DEFAULT_ALIGNMENT),
    }
}

/// Two string slices hold the same characters, compared byte by byte on
/// their UTF-8 encodings.
pub(crate) fn str_eq(a: &str, b: &str) -> (res: bool)
    ensures
        res == (a@ == b@),
{
    let x = a.as_bytes();
    let y = b.as_bytes();
    proof {
        encode_utf8_decode_utf8(a@);
        encode_utf8_decode_utf8(b@);
    }
    if x.len() != y.len() {
        return false;
    }
    let mut i: usize = 0;
    while i < x.len()
        invariant
            i <= x@.len(),
            x@.len() == y@.len(),
            a@ == b@ ==> x@ == y@,
            forall|j: int| 0 <= j < i ==> x@[j] == y@[j],
        decreases x@.len() - i,
    {
        if x[i] != y[i] {
            return false;
        }
        i = i + 1;
    }
    assert(x@ =~= y@);
    true
}

/// The first index is the least one whose key matches, and none matches
/// when there is no first index.
pub proof fn lemma_first_key_index(meta: Seq<EntryModel>, key: Seq<char>)
    ensures
        match first_key_index(meta, key) {
            Some(i) => 0 <= i < meta.len() && meta[i].0 == key && forall|j: int|
                0 <= j < i ==> meta[j].0 != key,
            None => forall|j: int| 0 <= j < meta.len() ==> meta[j].0 != key,
        },
    decreases meta.len(),
{
    if meta.len() > 0 {
        lemma_first_key_index(meta.drop_last(), key);
        assert forall|j: int| 0 <= j < meta.len() - 1 implies meta.drop_last()[j] == meta[j] by {}
    }
}

/// Index of the first entry of `meta` whose key is `key`.
pub(crate) fn find_key(meta: &Vec<(String, GgufValue)>, key: &str) -> (res: Option<usize>)
    ensures
        match res {
            Some(i) => first_key_index(metadata_model(meta@), key@) == Some(i as int),
            None => first_key_index(metadata_model(meta@), key@) is None,
        },
{
    let ghost mm = metadata_model(meta@);
    let mut i: usize = 0;
    while i < meta.len()
        invariant
            i <= meta.len(),
            mm == metadata_model(meta@),
            forall|j: int| 0 <= j < i ==> mm[j].0 != key@,
        decreases meta.len() - i,
    {
        let matched = str_eq(meta[i].0.as_str(), key);
        assert(mm[i as int].0 == meta@[i as int].0@);
        if matched {
            proof {
                lemma_first_key_index(mm, key@);
            }
            return Some(i);
        }
        i = i + 1;
    }
    proof {
        lemma_first_key_index(mm, key@);
    }
    None
}

/// Power-of-two test by repeated halving.
pub fn is_power_of_two_u64(a: u64) -> (res: bool)
    ensures
        res == is_power_of_two(a as nat),
{
    if a == 0 {
        return false;
    }
    let mut x = a;
    while x > 1
        invariant
            x >= 1,
            is_power_of_two(a as nat) == is_power_of_two(x as nat),
        decreases x,
    {
        if x % 2 != 0 {
            return false;
        }
        x = x / 2;
    }
    true
}

/// The alignment of the tensor-data section that the metadata sets.
pub(crate) fn alignment_of(meta: &Vec<(String, GgufValue)>) -> (res: Result<u64, GgufError>)
    ensures
        match spec_alignment(metadata_model(meta@)) {
            Ok(a) => res == Ok::<u64, GgufError>(a),
            Err(e) => res is Err && res->Err_0@ == e,
        },
{
    proof {
        lemma_first_key_index(metadata_model(meta@), alignment_key());
    }
    let key = "general.alignment";
    assert(key@ == alignment_key());
    match find_key(meta, key) {
        Some(i) => {
            assert(metadata_model(meta@)[i as int].1 == meta@[i as int].1@);
            match meta[i].1.as_u64() {
            Some(a) => if is_power_of_two_u64(a) && a >= 8 {
                Ok(a)
            } else {
                Err(GgufError::InvalidAlignment(a))
            },
                None => Ok(DEFAULT_ALIGNMENT),
            }
        },
        None => Ok(DEFAULT_ALIGNMENT),
    }
}

/// Read `count` metadata entries.
pub(crate) fn read_metadata(r: &mut Reader, count: u64) -> (res: Result<
    Vec<(String, GgufValue)>,
    GgufError,
>)
    requires
        old(r).pos <= old(r).buf@.len(),
    ensures
        final(r).buf@ == old(r).buf@,
        final(r).pos <= final(r).buf@.len(),
        final(r).pos >= old(r).pos,
        match spec_metadata(old(r).buf@, old(r).pos as int, count as nat) {
            Ok((ms, p)) => res is Ok && metadata_model(res->Ok_0@) == ms && final(r).pos == p,
            Err(e) => res is Err && res->Err_0@ == e,
        },
{
    let ghost buf = r.buf@;
    let ghost start = r.pos as int;
    let mut entries: Vec<(String, GgufValue)> = Vec::new();
    let mut i: u64 = 0;
    while i < count
        invariant
            r.buf@ == buf,
            buf == old(r).buf@,
            start == old(r).pos as int,
            r.pos <= buf.len(),
            r.pos >= start,
            i <= count,
            prepend_items(metadata_model(entries@), spec_metadata(buf, r.pos as int, (count - i) as nat))
                == spec_metadata(buf, start, count as nat),
        decreases count - i,
    {
        let ghost before = entries@;
        let key = match r.string() {
            Ok(k) => k,
            Err(e) => return Err(e),
        };
        let tag = match r.u32() {
            Ok(t) => t,
            Err(e) => return Err(e),
        };
        let ty = match GgufValueType::from_u32(tag) {
            Ok(t) => t,
            Err(e) => return Err(e),
        };
        let value = match r.value(ty, 0) {
            Ok(v) => v,
            Err(e) => return Err(e),
        };
        let ghost kv = (key@, value@);
        proof {
            assert(metadata_model(before.push((key, value))) =~= metadata_model(before).push(kv));
            lemma_prepend_push(
                metadata_model(before),
                kv,
                spec_metadata(buf, r.pos as int, (count - i - 1) as nat),
            );
        }
        entries.push((key, value));
        i = i + 1;
    }
    assert(metadata_model(entries@) + Seq::<EntryModel>::empty() =~= metadata_model(entries@));
    Ok(entries)
}

} // verus!
