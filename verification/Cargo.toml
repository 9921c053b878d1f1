[package]
name = "reader_manager"
version = "0.1.0"
edition = "2021"
publish = false

[dependencies]
nativeshell_core = { version = "=0.1.3", features = ["derive"] }
async-trait = "=0.1.92"
