[package]
name = "up_client_android"
version = "0.1.0"
edition = "2021"
publish = false

[dependencies]
async-std = "=1.13.2"
async-trait = "=0.1.92"
jni = "=0.21.1"
lazy_static = "=1.5.1"
log = "=0.4.34"
protobuf = "=3.7.2"
up-rust = { version = "=0.1.5", default-features = false }
