[package]
name = "object_attr"
version = "0.1.0"
edition = "2021"
publish = false

[dependencies]
juniper = "0.16"
futures = "0.3"

[dev-dependencies]
tokio = { version = "1", features = ["rt", "macros"] }
