[package]
name = "aide_axum_typed_multipart"
version = "0.1.0"
edition = "2021"
publish = false

[dependencies]
aide = "=0.15.1"
axum = { version = "=0.8.9", features = ["multipart"] }
axum_typed_multipart = "=0.15.1"
indexmap = "=2.14.2"
schemars = "=0.9.0"
serde_json = "=1.0.154"

[dev-dependencies]
tokio = { version = "=1.54.1", features = ["rt"] }
