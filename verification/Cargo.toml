[package]
name = "lazy_query"
version = "0.1.0"
edition = "2021"
publish = false

[dependencies]
polars = { version = "=0.55.2", default-features = false, features = ["lazy", "strings", "regex", "temporal", "abs", "round_series", "is_unique", "is_first_distinct", "unique_counts", "semi_anti_join", "string_pad", "string_encoding", "dtype-struct", "dtype-i8"] }
polars-io = { version = "=0.55.2", default-features = false, features = ["csv"] }
wasm-bindgen = "=0.2.129"
js-sys = "=0.3.106"
serde-wasm-bindgen = "=0.6.5"
