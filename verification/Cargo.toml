[package]
name = "auto_invite_matrix_bot"
version = "0.1.0"
edition = "2021"
publish = false

[dependencies]
rand = "=0.7.3"
serde = { version = "=1.0.229", features = ["derive"] }
serde_json = "=1.0.151"
serde_yaml = "=0.8.26"
log = "=0.4.34"
fern = "=0.6.2"
chrono = "=0.4.45"
clap = "=2.34.0"
url = "=2.5.8"
futures-util = "=0.3.34"
tokio = { version = "=1.53.2", features = ["macros", "rt"] }
ruma-client = "=0.4.0"
