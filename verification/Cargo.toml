[package]
name = "runtime_values"
version = "0.1.0"
edition = "2021"
publish = false

[dependencies]
libc = "0.2"
llvm-sys = { version = "*", default-features = false, features = ["no-llvm-linking", "disable-alltargets-init"] }
