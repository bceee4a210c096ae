[package]
name = "molten"
version = "0.1.0"
edition = "2021"
publish = false

[dependencies]
deno_core = "*"
rustler = "*"
serde_json = "*"
swc_common = "*"
swc_ecma_ast = { version = "*", features = ["serde-impl"] }
swc_ecma_parser = "*"
