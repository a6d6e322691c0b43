[package]
name = "wiremock_grpc"
version = "0.1.0"
edition = "2021"
publish = false

[dependencies]
prost = "0.11"
tokio = { version = "1", features = ["rt-multi-thread", "time"] }
tonic = "0.9"
