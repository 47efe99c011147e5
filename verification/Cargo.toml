[package]
name = "lantern-runtime"
version = "0.1.0"
edition = "2021"
publish = false

[dependencies]
wasmtime = { version = "48", default-features = false, features = ["runtime", "component-model", "std"] }
