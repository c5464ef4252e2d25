[package]
name = "zingo_grpc_proxy"
version = "0.1.0"
edition = "2021"
publish = false

[dependencies]
zaino-proto = { version = "=0.6.2", default-features = false, features = ["grpc_proxy_server"] }
tonic = "=0.14.9"
