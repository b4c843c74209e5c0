[package]
name = "sane_search"
version = "0.1.0"
edition = "2021"
publish = false

[dependencies]
serde_json = "=1.0.151"
tantivy = "=0.26.2"

[dev-dependencies]
tempfile = "=3.27.0"
