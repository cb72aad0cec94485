[package]
name = "run_internal"
version = "0.1.0"
edition = "2021"
publish = false

[dependencies]
nu-cmd-lang = { version = "=0.114.1", default-features = false, features = ["os"] }
nu-engine = { version = "=0.114.1", default-features = false }
nu-parser = { version = "=0.114.1", default-features = false }
nu-path = { version = "=0.114.1", default-features = false }
nu-plugin = { version = "=0.114.1", default-features = false }
nu-protocol = { version = "=0.114.1", default-features = false }
