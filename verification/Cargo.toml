[package]
name = "embedded_holochain_runner"
version = "0.1.0"
edition = "2021"
publish = false

[dependencies]
base64 = "=0.13.1"
ctrlc = { version = "=3.5.2", features = ["termination"] }
futures = "=0.3.34"
holochain_util = "=0.0.13"
holochain_zome_types = "0.7"
human-panic = "=1.2.3"
tokio = { version = "=1.54.1", features = ["full"] }
tracing = "=0.1.44"
