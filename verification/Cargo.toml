[package]
name = "sutera_world"
version = "0.1.0"
edition = "2021"
publish = false

[dependencies]
serde = "*"
serde_yaml = "*"
thiserror = "*"
tracing = "*"
tracing-error = "*"
tracing-subscriber = "*"
godot = "*"
