[package]
name = "stargate-grpc"
version = "0.2.0"
edition = "2021"
publish = false

[dependencies]
chrono = "0.4"
darling = "0.13"
proc-macro2 = "1"
prost = "0.8"
prost-types = "0.8"
quote = "1"
rustls-native-certs = "0.5"
syn = "1"
tokio-rustls = "0.22"
tonic = { version = "0.5", features = ["tls"] }
uuid = { version = "0.8", features = ["v4"] }
