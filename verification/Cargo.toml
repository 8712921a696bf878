[package]
name = "auto_allocator"
version = "0.1.0"
edition = "2021"
publish = false

[dependencies]
libc = "*"
log = "*"
mimalloc = "*"
once_cell = "*"
embedded-alloc = "*"
wasm-bindgen = "*"
winapi = { version = "*", features = ["sysinfoapi"] }
