[package]
name = "up_transport_iceoryx2_rust"
version = "0.1.0"
edition = "2021"
publish = false

[dependencies]
up-rust = "=0.9.0"
protobuf = "=3.7.2"
iceoryx2 = { version = "=0.7.0", features = ["libc_platform"] }
iceoryx2-bb-container = "=0.7.0"
tokio = { version = "=1.54.1", features = ["sync", "rt", "rt-multi-thread"] }
async-trait = "=0.1.92"

[dev-dependencies]
bytes = "=1.12.1"
