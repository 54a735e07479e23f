[package]
name = "suspend"
version = "0.1.0"
edition = "2021"
publish = false

[dependencies]
futures-core = "0.3"
libc = "0.2"
num_cpus = "1"
