use turboquant_gguf::error::GgufError;
use turboquant_gguf::file::FloatBits;
use turboquant_gguf::header::parse_header;
use turboquant_gguf::metadata::is_power_of_two_u64;
use turboquant_gguf::parser::GgufParser;
use turboquant_gguf::types::{GgmlType, GgufTensorInfo, GgufValueType};
use turboquant_gguf::value::GgufValue;

/// Little-endian GGUF byte writer for building test inputs.
struct Bytes(Vec<u8>);

impl Bytes {
    fn new() -> Self {
        Bytes(Vec::new())
    }
    fn header(version: u32, tensors: u64, kvs: u64) -> Self {
        let mut b = Bytes::new();
        b.0.extend_from_slice(b"GGUF");
        b.u32(version).u64(tensors).u64(kvs);
        b
    }
    fn u8(&mut self, v: u8) -> &mut Self {
        self.0.push(v);
        self
    }
    fn u16(&mut self, v: u16) -> &mut Self {
        self.0.extend_from_slice(&v.to_le_bytes());
        self
    }
    fn u32(&mut self, v: u32) -> &mut Self {
        self.0.extend_from_slice(&v.to_le_bytes());
        self
    }
    fn u64(&mut self, v: u64) -> &mut Self {
        self.0.extend_from_slice(&v.to_le_bytes());
        self
    }
    fn string(&mut self, s: &str) -> &mut Self {
        self.u64(s.len() as u64);
        self.0.extend_from_slice(s.as_bytes());
        self
    }
    fn kv_u32(&mut self, key: &str, v: u32) -> &mut Self {
        self.string(key).u32(4).u32(v)
    }
    fn tensor(&mut self, name: &str, dims: &[u64], ty: u32, offset: u64) -> &mut Self {
        self.string(name).u32(dims.len() as u32);
        for d in dims {
            self.u64(*d);
        }
        self.u32(ty).u64(offset)
    }
    fn pad_to(&mut self, n: usize) -> &mut Self {
        while self.0.len() < n {
            self.0.push(0);
        }
        self
    }
    fn bytes(&self) -> Vec<u8> {
        self.0.clone()
    }
}

#[test]
fn header_too_short() {
    assert_eq!(parse_header(b"GGUF"), Err(GgufError::HeaderTooShort));
    assert_eq!(parse_header(&[0u8; 23]), Err(GgufError::HeaderTooShort));
}

#[test]
fn header_bad_magic() {
    let mut b = Bytes::header(3, 0, 0).bytes();
    b[0] = b'X';
    assert_eq!(parse_header(&b), Err(GgufError::BadMagic));
}

#[test]
fn header_unsupported_versions() {
    assert_eq!(parse_header(&Bytes::header(1, 0, 0).bytes()), Err(GgufError::UnsupportedVersion(1)));
    assert_eq!(parse_header(&Bytes::header(4, 0, 0).bytes()), Err(GgufError::UnsupportedVersion(4)));
}

#[test]
fn header_fields_little_endian() {
    let h = parse_header(&Bytes::header(2, 0x0102_0304_0506_0708, 5).bytes()).unwrap();
    assert_eq!(h.version, 2);
    assert_eq!(h.tensor_count, 0x0102_0304_0506_0708);
    assert_eq!(h.metadata_kv_count, 5);
    let h = parse_header(&Bytes::header(3, 1, 2).bytes()).unwrap();
    assert_eq!((h.version, h.tensor_count, h.metadata_kv_count), (3, 1, 2));
}

#[test]
fn empty_file_needs_aligned_data_section() {
    // 24 header bytes round up to 32 with the default alignment.
    let b = Bytes::header(3, 0, 0).bytes();
    assert_eq!(GgufParser::parse(b).err(), Some(GgufError::TruncatedBeforeData));
    let b = Bytes::header(3, 0, 0).pad_to(32).bytes();
    let f = GgufParser::parse(b.clone()).unwrap();
    assert_eq!(f.alignment, 32);
    assert_eq!(f.data_start, 32);
    assert!(f.metadata.is_empty());
    assert!(f.tensors.is_empty());
    assert_eq!(f.raw(), &b[..]);
}

#[test]
fn metadata_scalar_values() {
    let mut b = Bytes::header(3, 0, 9);
    b.string("a.u8").u32(0).u8(200);
    b.string("a.i8").u32(1).u8(0xff);
    b.string("a.u16").u32(2).u16(0xbeef);
    b.string("a.i16").u32(3).u16(0x8000);
    b.string("a.i32").u32(5).u32(0xffff_fffe);
    b.string("a.f32").u32(6).u32(1.5f32.to_bits());
    b.string("a.bool").u32(7).u8(2);
    b.string("a.i64").u32(11).u64(u64::MAX);
    b.string("a.str").u32(8).string("héllo");
    let len = b.0.len();
    b.pad_to((len + 31) / 32 * 32);
    let f = GgufParser::parse(b.bytes()).unwrap();
    assert_eq!(f.metadata.len(), 9);
    assert!(matches!(f.metadata_value("a.u8"), Some(GgufValue::U8(200))));
    assert!(matches!(f.metadata_value("a.i8"), Some(GgufValue::I8(-1))));
    assert!(matches!(f.metadata_value("a.u16"), Some(GgufValue::U16(0xbeef))));
    assert!(matches!(f.metadata_value("a.i16"), Some(GgufValue::I16(-32768))));
    assert!(matches!(f.metadata_value("a.i32"), Some(GgufValue::I32(-2))));
    match f.metadata_value("a.f32") {
        Some(GgufValue::F32(bits)) => assert_eq!(f32::from_bits(*bits), 1.5),
        other => panic!("unexpected {:?}", other),
    }
    assert!(matches!(f.metadata_value("a.bool"), Some(GgufValue::Bool(true))));
    assert!(matches!(f.metadata_value("a.i64"), Some(GgufValue::I64(-1))));
    match f.metadata_value("a.str") {
        Some(GgufValue::String(s)) => assert_eq!(s, "héllo"),
        other => panic!("unexpected {:?}", other),
    }
    assert!(f.metadata_value("missing").is_none());
}

#[test]
fn metadata_lookup_takes_first_match() {
    let mut b = Bytes::header(3, 0, 3);
    b.kv_u32("k", 1).kv_u32("other", 2).kv_u32("k", 3);
    let len = b.0.len();
    b.pad_to((len + 31) / 32 * 32);
    let f = GgufParser::parse(b.bytes()).unwrap();
    assert!(matches!(f.metadata_value("k"), Some(GgufValue::U32(1))));
    assert!(matches!(f.metadata_value("other"), Some(GgufValue::U32(2))));
}

#[test]
fn metadata_arrays_and_nesting() {
    let mut b = Bytes::header(3, 0, 1);
    b.string("arr").u32(9).u32(9).u64(2);
    b.u32(0).u64(3).u8(1).u8(2).u8(3);
    b.u32(8).u64(1).string("x");
    let len = b.0.len();
    b.pad_to((len + 31) / 32 * 32);
    let f = GgufParser::parse(b.bytes()).unwrap();
    match f.metadata_value("arr") {
        Some(GgufValue::Array(GgufValueType::Array, outer)) => {
            assert_eq!(outer.len(), 2);
            match &outer[0] {
                GgufValue::Array(GgufValueType::U8, xs) => {
                    assert_eq!(xs.len(), 3);
                    assert!(matches!(xs[2], GgufValue::U8(3)));
                }
                other => panic!("unexpected {:?}", other),
            }
            match &outer[1] {
                GgufValue::Array(GgufValueType::String, xs) => {
                    assert!(matches!(&xs[0], GgufValue::String(s) if s == "x"));
                }
                other => panic!("unexpected {:?}", other),
            }
        }
        other => panic!("unexpected {:?}", other),
    }
}

/// A metadata entry holding `levels` arrays nested one inside the other,
/// the innermost of one u8.
fn nested_array_file(levels: usize) -> Vec<u8> {
    let mut b = Bytes::header(3, 0, 1);
    b.string("deep").u32(9);
    for _ in 1..levels {
        b.u32(9).u64(1);
    }
    b.u32(0).u64(1).u8(7);
    let len = b.0.len();
    b.pad_to((len + 31) / 32 * 32);
    b.bytes()
}

#[test]
fn nesting_limit_is_eight_arrays() {
    assert!(GgufParser::parse(nested_array_file(8)).is_ok());
    assert_eq!(GgufParser::parse(nested_array_file(9)).err(), Some(GgufError::ArrayNestingTooDeep));
}

#[test]
fn array_count_beyond_remaining_bytes() {
    let mut b = Bytes::header(3, 0, 1);
    b.string("arr").u32(9).u32(0).u64(1000);
    b.pad_to(200);
    assert_eq!(
        GgufParser::parse(b.bytes()).err(),
        Some(GgufError::ArrayCountExceedsRemaining { count: 1000 })
    );
}

#[test]
fn unknown_value_type_and_bad_utf8() {
    let mut b = Bytes::header(3, 0, 1);
    b.string("k").u32(13).u32(0);
    assert_eq!(GgufParser::parse(b.bytes()).err(), Some(GgufError::UnknownValueType(13)));
    let mut b = Bytes::header(3, 0, 1);
    b.u64(2).u8(0xc3).u8(0x28).u32(4).u32(0);
    assert_eq!(GgufParser::parse(b.bytes()).err(), Some(GgufError::InvalidUtf8));
}

#[test]
fn truncated_metadata_reports_offset() {
    let mut b = Bytes::header(3, 0, 1);
    b.string("key").u32(4).u8(1);
    // The u32 value starts at 24 + 8 + 3 + 4 = 39 and needs 4 bytes.
    assert_eq!(GgufParser::parse(b.bytes()).err(), Some(GgufError::UnexpectedEof { offset: 39 }));
}

#[test]
fn alignment_from_metadata() {
    let mut b = Bytes::header(3, 0, 1);
    b.kv_u32("general.alignment", 64);
    b.pad_to(64);
    let f = GgufParser::parse(b.bytes()).unwrap();
    assert_eq!(f.alignment, 64);
    assert_eq!(f.data_start, 64);
}

#[test]
fn alignment_must_be_power_of_two_at_least_eight() {
    for bad in [12u32, 4, 0] {
        let mut b = Bytes::header(3, 0, 1);
        b.kv_u32("general.alignment", bad);
        b.pad_to(128);
        assert_eq!(GgufParser::parse(b.bytes()).err(), Some(GgufError::InvalidAlignment(bad as u64)));
    }
}

#[test]
fn alignment_of_non_integer_falls_back_to_default() {
    let mut b = Bytes::header(3, 0, 1);
    b.string("general.alignment").u32(8).string("64");
    let len = b.0.len();
    b.pad_to((len + 31) / 32 * 32);
    let f = GgufParser::parse(b.bytes()).unwrap();
    assert_eq!(f.alignment, 32);
    assert_eq!(f.data_start % 32, 0);
}

#[test]
fn tensors_and_their_data() {
    let mut b = Bytes::header(3, 3, 0);
    b.tensor("w", &[2, 3], 0, 0); // F32, 24 bytes
    b.tensor("h", &[3], 1, 32); // F16, 6 bytes
    b.tensor("q", &[32], 2, 64); // Q4_0, spans to the end
    let len = b.0.len();
    let start = (len + 31) / 32 * 32;
    b.pad_to(start);
    for i in 0..6u32 {
        b.u32((i as f32).to_bits());
    }
    b.pad_to(start + 32);
    b.u16(0x3c00).u16(0x4000).u16(0xc000);
    b.pad_to(start + 64);
    for i in 0..18u8 {
        b.u8(i);
    }
    let bytes = b.bytes();
    let f = GgufParser::parse(bytes.clone()).unwrap();
    assert_eq!(f.data_start, start);
    assert_eq!(f.tensors.len(), 3);
    let w = f.tensor("w").unwrap();
    assert_eq!(w.dims, vec![2, 3]);
    assert_eq!(w.ggml_type, GgmlType::F32);
    assert_eq!(w.data_size(), Some(24));
    let data = f.tensor_data(w).unwrap();
    assert_eq!(data, &bytes[start..start + 24]);
    match f.tensor_float_bits(w).unwrap() {
        FloatBits::F32(words) => {
            let vals: Vec<f32> = words.iter().map(|b| f32::from_bits(*b)).collect();
            assert_eq!(vals, vec![0.0, 1.0, 2.0, 3.0, 4.0, 5.0]);
        }
        FloatBits::F16(_) => panic!("expected f32 words"),
    }
    let h = f.tensor("h").unwrap();
    match f.tensor_float_bits(h).unwrap() {
        FloatBits::F16(words) => assert_eq!(words, vec![0x3c00, 0x4000, 0xc000]),
        FloatBits::F32(_) => panic!("expected f16 words"),
    }
    let q = f.tensor("q").unwrap();
    assert_eq!(q.data_size(), None);
    assert_eq!(f.tensor_data(q).unwrap().len(), 18);
    assert_eq!(f.tensor_float_bits(q).err(), Some(GgufError::UnsupportedDecode { name: "q".to_string(), ggml_type: GgmlType::Q4_0 }));
    assert!(f.tensor("nope").is_none());
}

#[test]
fn block_tensor_spans_to_next_offset() {
    let mut b = Bytes::header(3, 2, 0);
    b.tensor("q", &[32], 8, 0); // Q8_0
    b.tensor("r", &[4], 0, 64);
    let len = b.0.len();
    let start = (len + 31) / 32 * 32;
    b.pad_to(start + 80);
    let f = GgufParser::parse(b.bytes()).unwrap();
    let q = f.tensor("q").unwrap();
    assert_eq!(f.tensor_data(q).unwrap().len(), 64);
}

#[test]
fn tensor_out_of_range_is_refused() {
    let mut b = Bytes::header(3, 1, 0);
    b.tensor("w", &[4], 0, 0);
    let len = b.0.len();
    let start = (len + 31) / 32 * 32;
    b.pad_to(start + 8);
    assert_eq!(
        GgufParser::parse(b.bytes()).err(),
        Some(GgufError::TensorOutOfRange { name: "w".to_string(), start, end: start + 16, file_len: start + 8 })
    );
}

#[test]
fn too_many_dims_and_unknown_type() {
    let mut b = Bytes::header(3, 1, 0);
    b.string("t").u32(9);
    assert_eq!(GgufParser::parse(b.bytes()).err(), Some(GgufError::TooManyDims { name: "t".to_string(), n_dims: 9 }));
    let mut b = Bytes::header(3, 1, 0);
    b.tensor("t", &[1], 4, 0);
    assert_eq!(GgufParser::parse(b.bytes()).err(), Some(GgufError::UnknownGgmlType(4)));
}

#[test]
fn data_size_cases() {
    let t = |dims: Vec<u64>, ty: GgmlType| GgufTensorInfo { name: "t".to_string(), dims, ggml_type: ty, offset: 0 };
    assert_eq!(t(vec![2, 0, u64::MAX], GgmlType::F32).data_size(), Some(0));
    assert_eq!(t(vec![u64::MAX, 2], GgmlType::I8).data_size(), None);
    assert_eq!(t(vec![1 << 62], GgmlType::F32).data_size(), None);
    assert_eq!(t(vec![1 << 62], GgmlType::I8).data_size(), Some(1 << 62));
    assert_eq!(t(vec![], GgmlType::F64).data_size(), Some(8));
    assert_eq!(t(vec![3, 5], GgmlType::BF16).data_size(), Some(30));
    assert_eq!(t(vec![3, 5], GgmlType::Q6_K).data_size(), None);
}

#[test]
fn type_ids() {
    assert_eq!(GgmlType::from_u32(0), Ok(GgmlType::F32));
    assert_eq!(GgmlType::from_u32(30), Ok(GgmlType::BF16));
    assert_eq!(GgmlType::from_u32(5), Err(GgufError::UnknownGgmlType(5)));
    assert_eq!(GgufValueType::from_u32(12), Ok(GgufValueType::F64));
    assert_eq!(GgufValueType::from_u32(99), Err(GgufError::UnknownValueType(99)));
}

#[test]
fn power_of_two_test() {
    assert!(is_power_of_two_u64(1));
    assert!(is_power_of_two_u64(8));
    assert!(is_power_of_two_u64(1 << 63));
    assert!(!is_power_of_two_u64(0));
    assert!(!is_power_of_two_u64(12));
}

#[test]
fn as_u64_cases() {
    assert_eq!(GgufValue::U16(7).as_u64(), Some(7));
    assert_eq!(GgufValue::I32(-1).as_u64(), None);
    assert_eq!(GgufValue::I64(5).as_u64(), Some(5));
    assert_eq!(GgufValue::Bool(true).as_u64(), None);
    assert_eq!(GgufValue::String("1".to_string()).as_u64(), None);
}

#[test]
fn layout_after_parse() {
    let mut b = Bytes::header(2, 1, 2);
    b.kv_u32("general.alignment", 16).kv_u32("x", 1);
    b.tensor("t", &[2], 24, 0); // I8
    let len = b.0.len();
    let start = (len + 15) / 16 * 16;
    b.pad_to(start + 2);
    let bytes = b.bytes();
    let f = GgufParser::parse(bytes.clone()).unwrap();
    assert_eq!(f.header.version, 2);
    assert_eq!(f.metadata.len() as u64, f.header.metadata_kv_count);
    assert_eq!(f.tensors.len() as u64, f.header.tensor_count);
    assert_eq!(f.alignment, 16);
    assert_eq!(f.data_start, start);
    assert_eq!(f.data_start % 16, 0);
    assert!(f.data_start >= 24 && f.data_start <= bytes.len());
    assert_eq!(f.raw(), &bytes[..]);
    for t in &f.tensors {
        let d = f.tensor_data(t).unwrap();
        assert!(d.len() <= bytes.len() - f.data_start);
    }
}

#[test]
fn appended_bytes_keep_the_parse() {
    let mut b = Bytes::header(3, 1, 1);
    b.kv_u32("x", 5);
    b.tensor("w", &[2], 0, 0);
    let len = b.0.len();
    let start = (len + 31) / 32 * 32;
    b.pad_to(start + 8);
    let base = b.bytes();
    let f = GgufParser::parse(base.clone()).unwrap();
    let mut longer = base.clone();
    longer.extend_from_slice(&[0xAA; 100]);
    let g = GgufParser::parse(longer.clone()).unwrap();
    assert_eq!(g.header, f.header);
    assert_eq!(g.alignment, f.alignment);
    assert_eq!(g.data_start, f.data_start);
    assert_eq!(g.tensors.len(), f.tensors.len());
    assert_eq!(g.tensors[0].dims, f.tensors[0].dims);
    assert_eq!(g.tensor_data(&g.tensors[0]).unwrap(), f.tensor_data(&f.tensors[0]).unwrap());
    assert_eq!(g.raw(), &longer[..]);
}

#[test]
fn truncated_before_data_is_refused() {
    let mut b = Bytes::header(3, 1, 1);
    b.kv_u32("x", 5);
    b.tensor("w", &[2], 0, 0);
    let len = b.0.len();
    let start = (len + 31) / 32 * 32;
    b.pad_to(start + 8);
    let full = b.bytes();
    assert!(GgufParser::parse(full.clone()).is_ok());
    for k in 0..start {
        assert!(GgufParser::parse(full[..k].to_vec()).is_err(), "cut at {k} was accepted");
    }
}

#[test]
fn cloned_value_and_file_keep_content() {
    let v = GgufValue::Array(
        GgufValueType::Array,
        vec![GgufValue::Array(GgufValueType::String, vec![GgufValue::String("a".to_string())])],
    );
    let c = v.clone();
    match c {
        GgufValue::Array(GgufValueType::Array, outer) => match &outer[0] {
            GgufValue::Array(GgufValueType::String, inner) => {
                assert!(matches!(&inner[0], GgufValue::String(s) if s == "a"))
            }
            other => panic!("unexpected {:?}", other),
        },
        other => panic!("unexpected {:?}", other),
    }
    let f = GgufParser::parse(Bytes::header(3, 0, 0).pad_to(32).bytes()).unwrap();
    let g = f.clone();
    assert_eq!(g.raw(), f.raw());
    assert_eq!(g.data_start, 32);
}
