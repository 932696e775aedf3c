[package]
name = "pmc_interpreter"
version = "0.1.0"
edition = "2021"
publish = false

[dependencies]
bitfield-struct = "*"
clap = { version = "4", features = ["derive"] }
