[package]
name = "mimikry"
version = "0.1.0"
edition = "2021"
publish = false

[dependencies]
rcgen = "=0.11.3"
anyhow = "1"
clap = { version = "4", features = ["derive"] }
mime_guess = "2"
tokio = { version = "1", features = ["macros", "rt-multi-thread", "signal"] }
users = "0.11"
walkdir = "2"
warp = { version = "0.3", features = ["tls"] }

[dev-dependencies]
pem = "=3.0.6"
untrusted = "0.9"
webpki = "0.22"
