[package]
name = "fairview"
version = "0.1.0"
edition = "2021"
publish = false

[dependencies]
chrono = "*"
raw-cpuid = "*"
serde = { version = "*", features = ["derive"] }
serde_json = "*"
sysinfo = "*"
tokio = { version = "*", features = ["macros", "rt", "time"] }
toml = "*"
