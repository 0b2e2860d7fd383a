[package]
name = "kustomize_upstream"
version = "0.1.0"
edition = "2021"
publish = false

[dependencies]
tera = { version = "1", default-features = false }
yaml-rust = "0.4"
yaml-merge-keys = "0.5"
serde_json = "1"
serde = { version = "1", features = ["derive"] }
serde_yaml = "0.9"
reqwest = { version = "0.12", default-features = false, features = ["blocking"] }
exitcode = "1"
