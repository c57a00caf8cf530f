[package]
name = "remote_projects"
version = "0.1.0"
edition = "2021"
publish = false

[dependencies]
anyhow = "1"
futures = "0.3"
libc = "0.2"
log = "0.4"
parking_lot = "0.12"
schemars = "1"
semver = "=1.0.28"
serde = { version = "1", features = ["derive"] }
serde_json_lenient = "0.2"
shlex = "=1.3.0"
smol = "2"
windows = { version = "0.61", features = ["Win32_Foundation", "Win32_Security", "Win32_System_JobObjects", "Win32_System_Threading"] }
