[package]
name = "scanopy"
version = "0.1.0"
edition = "2021"
publish = false

[dependencies]
pem = "*"
semver = "*"
chrono = { version = "*", default-features = false, features = ["std", "clock"] }
url = "*"
tempfile = "*"
tokio = { version = "*", features = ["net", "rt", "macros", "time"] }
backon = "*"
anyhow = "*"
uuid = { version = "*", features = ["v4"] }

[dev-dependencies]
uuid = { version = "*", features = ["v4"] }
