[package]
name = "ket"
version = "1.0.1"
edition = "2021"
publish = false

[dependencies]
anyhow = "1.0"
clap = "2.33"
console = "0.15"
dialoguer = "0.11"
directories = "5.0"
dirs = "6.0"
indicatif = "0.17"
reqwest = { version = "0.11", default-features = false, features = ["blocking", "rustls-tls"] }
