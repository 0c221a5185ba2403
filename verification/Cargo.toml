[package]
name = "rupnpc"
version = "0.1.0"
edition = "2021"
publish = false

[dependencies]
anyhow = "1"
futures = "0.3"
pin-utils = "0.1"
rt-format = "=0.3.1"
rupnp = { version = "=3.0.0", features = ["full_device_spec"] }
structopt = "0.3"
tokio = { version = "1", features = ["macros", "rt-multi-thread"] }
