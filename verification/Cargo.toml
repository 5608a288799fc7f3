[package]
name = "lucent"
version = "0.1.0"
edition = "2021"
publish = false

[dependencies]
directories = "*"
gtk4 = { version = "*", features = ["v4_12"] }
gtk4-layer-shell = "*"
serde = { version = "1", features = ["derive"] }
tokio = { version = "1", features = ["rt", "sync"] }
toml = "*"
zbus = "5"
