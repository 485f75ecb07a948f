[package]
name = "thrift_pool"
version = "0.1.0"
edition = "2021"
publish = false

[dependencies]
thrift = "=0.25.0"
bb8 = "=0.9.1"
r2d2 = "=0.8.10"

[dev-dependencies]
tokio = { version = "=1.53.2", features = ["net", "rt"] }
