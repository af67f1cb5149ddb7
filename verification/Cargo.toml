[package]
name = "msl_cli"
version = "0.2.1"
edition = "2021"
publish = false

[dependencies]
anyhow = "=1.0.104"
chrono = { version = "=0.4.45", default-features = false, features = ["clock"] }
clap = "=4.6.7"
console = "=0.16.6"
keyring = { version = "=3.6.3", default-features = false }
ratatui = "=0.30.2"
ratatui-image = { version = "=11.1.0", default-features = false }
reqwest = { version = "=0.13.5", default-features = false, features = ["blocking", "form", "json", "query"] }
rpassword = "=7.5.4"
serde = { version = "=1.0.229", features = ["derive"] }
serde_json = "=1.0.151"
whoami = { version = "=2.1.3", default-features = false }
