[package]
name = "log_analyzer"
version = "0.1.0"
edition = "2021"
publish = false

[dependencies]
uuid = { version = "=1.29.0", features = ["v4"] }
regex = "=1.13.1"
num_cpus = "=1.17.0"
serde = { version = "=1.0.229", features = ["derive"] }
serde_json = "=1.0.154"
walkdir = "=2.5.0"
sha2 = "=0.10.9"
mime_guess = "=2.0.5"
flate2 = "=1.1.10"
tar = "=0.4.46"
zip = { version = "=2.6.1", default-features = false, features = ["deflate"] }
chrono = { version = "=0.4.45", default-features = false, features = ["alloc", "std"] }
sevenz-rust = "0.6"
