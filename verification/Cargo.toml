[package]
name = "caligula"
version = "0.1.0"
edition = "2021"
publish = false

[dependencies]
lockfree = "=0.5.1"
sha2 = "=0.10.9"
digest = "=0.10.7"
bytes = "=1.12.1"
clap = { version = "=4.6.7", features = ["derive"] }
crossterm = "=0.29.0"
indicatif = "=0.18.6"
inquire = "=0.9.4"
libc = "=0.2.191"
sysctl = "=0.7.1"
uname = "=0.1.1"
tracing = "=0.1.44"
tracing-subscriber = { version = "=0.3.23", features = ["env-filter"] }
tokio = { version = "=1.54.1", features = ["rt", "sync", "io-util", "process", "time", "macros"] }
futures = "=0.3.34"
process_path = "=0.1.4"
anyhow = "1"
thiserror = "2"
serde = { version = "1", features = ["derive"] }
chrono = { version = "0.4", features = ["serde"] }
nix = { version = "0.29", features = ["fs"] }
tracing-panic = "*"
