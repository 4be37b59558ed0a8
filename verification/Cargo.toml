[package]
name = "thaime"
version = "0.1.0"
edition = "2021"
publish = false

[dependencies]
zbus = { version = "5", default-features = false, features = ["tokio"] }
zvariant = "5"
tokio = { version = "1", features = ["macros", "rt-multi-thread", "signal", "sync", "time"] }
clap = { version = "4", features = ["derive"] }
env_logger = "0.11"
log = "0.4"
