[package]
name = "nub_cook"
version = "0.1.0"
edition = "2021"
publish = false

[dependencies]
anyhow = "=1.0.104"
cacache = "=13.1.0"
libc = "=0.2.191"
serde_json = "=1.0.154"
sha2 = "=0.10.9"
tempfile = "=3.27.0"
tracing = "=0.1.44"
