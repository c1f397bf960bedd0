[package]
name = "binup"
version = "1.6.1"
edition = "2021"
publish = false

[dependencies]
ansi_term = "=0.12.1"
bzip2 = "=0.6.1"
chrono = "=0.4.45"
clap = "=4.6.7"
easy-logging = "=1.1.0"
file-format = { version = "=0.29.0", features = ["reader"] }
flate2 = "=1.1.10"
globset = "=0.4.20"
http = "=1.5.0"
libc = "=0.2.191"
log = "=0.4.34"
nondestructive = "=0.0.29"
octocrab = "=0.40.0"
platforms = "=3.12.0"
regex = "=1.13.1"
reqwest = { version = "=0.12.28", default-features = false, features = ["blocking", "rustls-tls"] }
semver = "=1.0.28"
serde = { version = "=1.0.229", features = ["derive"] }
serde_yaml = "=0.9.34"
shellexpand = "=3.1.2"
tabled = "=0.22.0"
tar = "=0.4.46"
tokio = { version = "=1.54.1", features = ["rt"] }
url = "=2.5.8"
validator = { version = "=0.21.0", features = ["derive"] }
xz2 = "=0.1.7"
