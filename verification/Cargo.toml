[package]
name = "aptos_toolkit"
version = "0.1.0"
edition = "2021"
publish = false

[dependencies]
anyhow = "1"
async-trait = "0.1"
bcs = "0.1"
build_html = "2.5"
clap = { version = "4", features = ["derive"] }
futures = "0.3"
once_cell = "1"
serde = { version = "1", features = ["derive"] }
tokio = { version = "1", features = ["sync", "time", "rt-multi-thread", "macros", "fs"] }
tonic = { version = "0.12", features = ["transport", "codegen", "prost", "gzip", "zstd", "tls"] }
tonic-reflection = "0.12"
tracing = "0.1"
warp = { version = "0.3", default-features = false }
