[package]
name = "btinfo"
version = "0.1.0"
edition = "2021"
publish = false

[dependencies]
regex = "1"
libc = "0.2"
anyhow = "1"
clap = { version = "4", features = ["derive"] }
colored = "*"
env_logger = "*"
log = "0.4"
serde = { version = "1", features = ["derive"] }
serde_json = "1"
sysinfo = "*"
tokio = { version = "1", features = ["full"] }
toml = { version = "*", features = ["preserve_order"] }
xdg = "3"
zbus = { version = "5", default-features = false, features = ["tokio"] }
zvariant = "5"
futures-util = "0.3"
