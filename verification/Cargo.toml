[package]
name = "casper-shorts"
version = "0.1.0"
edition = "2021"
publish = false

[dependencies]
casper-types = "=4.0.2"
odra = "=1.5.1"
odra-modules = "=1.5.1"
chrono = "=0.4.45"
clap = { version = "=4.6.7", features = ["derive"] }
csv = "=1.4.0"
plotly = "=0.14.1"
prettycli = "=0.1.1"
rand = "=0.8.8"
reqwest = { version = "=0.12.4", features = ["blocking", "json"] }
serde = { version = "=1.0.229", features = ["derive"] }
serde_derive = "=1.0.229"
serde_json = "=1.0.154"
thiserror = "=1.0.69"
toml = "=0.8.23"
