[package]
name = "opskit"
version = "0.1.0"
edition = "2021"
publish = false

[dependencies]
regex = "=1.13.1"
chrono = "=0.4.45"
serde = { version = "=1.0.229", features = ["derive"] }
toml = "=1.1.7"
fs2 = "=0.4.3"
filebuffer = "=1.0.1"
log = "=0.4.34"
log4rs = "=1.4.0"
simple_logger = "=5.2.0"
structopt = "=0.3.26"
native-tls = "=0.2.18"
serde-humantime = "=0.1.1"

[dev-dependencies]
tempfile = "*"
