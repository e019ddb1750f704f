[package]
name = "swaybar"
version = "0.1.0"
edition = "2021"
publish = false

[dependencies]
chrono = "=0.4.45"
rand = "=0.10.3"
serde_json = "=1.0.151"
serde = { version = "=1.0.229", features = ["derive"] }
clap = { version = "=4.6.7", features = ["derive"] }
tokio = { version = "=1.53.2", features = ["full"] }
futures = "=0.3.34"
tokio-stream = { version = "=0.1.19", features = ["fs"] }
swayipc = "=4.0.0"
reqwest = { version = "=0.13.5", default-features = false, features = ["json"] }
