[package]
name = "cube_harvest"
version = "0.1.0"
edition = "2021"
publish = false

[dependencies]
rand = "0.8"
serde_json = "1"
tokio = { version = "1", features = ["macros", "rt-multi-thread", "sync", "time"] }
kube = "*"
k8s-openapi = { version = "*", features = ["latest"] }
macroquad = "0.4"
