[package]
name = "arg_attrs"
version = "0.1.0"
edition = "2021"
publish = false

[dependencies]
heck = "0.3"
proc-macro2 = "0.4"
quote = "0.6"
syn = { version = "0.15", features = ["full"] }
