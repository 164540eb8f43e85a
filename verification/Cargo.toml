[package]
name = "nonempty_set"
version = "0.1.0"
edition = "2021"
publish = false

[dependencies]
cbor_event = "=3.2.0"
