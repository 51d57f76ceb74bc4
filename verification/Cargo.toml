[package]
name = "zero_on_free"
version = "0.1.0"
edition = "2021"
publish = false

[dependencies]
anyhow = "=1.0.104"
proc-macro2 = "=1.0.107"
quote = "=1.0.47"
syn = { version = "=2.0.119", features = ["full"] }
thiserror = "=2.0.21"
zeroizing-alloc = "=0.1.1"

[dev-dependencies]
http = "=1.5.0"
itertools = "=0.15.0"
ordered-float = "=5.5.0"
qcell = "=0.5.5"
