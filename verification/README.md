# slicecore_engine

Profile handling and planning helpers of a 3D-printing slicer, written in
Verus: the functions in `src/` carry contracts that the verifier proves,
except a few small wrappers around calls into std and outside crates
(`string_from_chars`, `to_lowercase`, `to_uppercase`, `io_error_text`,
`sha256_digest`, `toml_string_entry`, `toml_parse_error`), whose contracts
are assumed and stated in their doc comments.

## Layout

- `src/text.rs`, `src/field_map.rs`: character-level string model (trimming,
  splitting, searching, decimal and case conversion) and a key/value map
  viewed as a mathematical map.
- `src/profile_import_ini.rs`: PrusaSlicer INI bundles: parser, section
  lookup, multi-parent inheritance with its laws, key and enum tables.
- `src/profile_import.rs`: upstream JSON profiles: format detection, key and
  enum tables.
- `src/profile_library.rs`: file names and facts read from profile names,
  merging of field lists and index entries.
- `src/profile_resolve.rs`: resolution results, error messages, SHA-256
  checksums and the decisions of name search.
- `src/calendar.rs`: days since the epoch to calendar dates, UTC timestamps.
- `src/seam.rs`, `src/statistics.rs`, `src/support/`: seam selection,
  feature naming and time display, support settings and fan overrides.
- `app/`: ordinary Rust around the library: the clock, the file system
  (profile index, resolver), floating-point settings and serde/thiserror
  types.
- `tests/`: tests of the library.
