[package]
name = "ffi_types"
version = "0.1.0"
edition = "2021"
publish = false

[dependencies]
cbindgen = { version = "*", default-features = false }
libc = "0.2"
static_assertions = "1"
