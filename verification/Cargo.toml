[package]
name = "wasm_engine"
version = "0.1.0"
edition = "2021"
publish = false

[dependencies]
indexmap = "1.9"
smallvec = "1"
wasmparser = "0.78"
rkyv = "0.7"
enumset = "1.0"
thiserror = "1"
anyhow = "1"
rayon = "1"
structopt = "0.3"
wat = "1"
