[package]
name = "secret_stream"
version = "0.1.0"
edition = "2021"
publish = false

[dependencies]
box_stream = "=0.5.0"
secret_handshake = "=5.0.0"
sodiumoxide = "=0.0.16"
futures-core = "=0.2.1"
futures-io = "=0.2.1"

[dev-dependencies]
futures-executor = "=0.2.1"
futures-util = "=0.2.1"
