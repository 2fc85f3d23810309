[package]
name = "derive-error-chain"
version = "0.11.0"
edition = "2021"
publish = false

[dependencies]
proc-macro2 = "0.3"
quote = "0.5"
syn = { version = "0.13", features = ["full"] }
syntex_fmt_macros = "0.5"
