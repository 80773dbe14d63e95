[package]
name = "context_attribute"
version = "0.1.0"
edition = "2021"
publish = false

[dependencies]
proc-macro2 = { version = "=0.4.30", default-features = false }
quote = { version = "=0.6.13", default-features = false }
syn = { version = "=0.15.44", default-features = false, features = ["clone-impls", "full", "parsing", "printing"] }
