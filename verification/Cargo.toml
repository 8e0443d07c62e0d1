[package]
name = "storyboard"
version = "0.1.0"
edition = "2021"
publish = false

[dependencies]
wgpu = "0.13"
rustc-hash = "1"
spx = "*"
spx-codegen = "*"
relative-path = "1"
tokio = { version = "1", features = ["fs", "io-util", "macros", "rt-multi-thread"] }
tokio-util = { version = "0.7", features = ["compat"] }
clap = { version = "4", features = ["derive"] }
deno_core = "*"
