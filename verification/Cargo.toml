[package]
name = "slate"
version = "0.1.0"
edition = "2021"
publish = false

[dependencies]
rand = "0.8"
thiserror = "1"
serde = { version = "1", features = ["derive"] }
parking_lot = "0.12"
sled = "0.34"
slotmap = "1"
dashmap = "5"
unicode-bidi = "0.3"
ttf-parser = "0.20"
fontdb = "0.16"
ab_glyph = "0.2"
rustybuzz = "0.13"
wat = "1"
wasmtime = "20"
wgpu = "0.19"
boa_engine = "0.19"
