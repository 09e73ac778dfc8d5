# turboquant_gguf

Reading of GGUF model containers (versions 2 and 3), verified with Verus.

- `src/header.rs`: the 24-byte header.
- `src/reader.rs`: the little-endian byte grammar (integers, strings, metadata
  values with nested arrays) as spec functions, and the cursor that reads it.
- `src/metadata.rs`, `src/tensor_info.rs`: metadata entries, alignment rule,
  tensor infos and their data sizes.
- `src/file.rs`: the parsed file, lookups and tensor-data ranges.
- `src/parser.rs`: the whole-file grammar and `GgufParser::parse`.
- `src/stability.rs`: reads give the same result on a longer buffer.
- `src/laws.rs`: properties of every successful parse.
- `app/lib.rs`: reading from disk, error messages, and float decoding.
