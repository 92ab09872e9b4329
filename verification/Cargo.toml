[package]
name = "custom_rustdesk"
version = "0.2.0"
edition = "2021"
publish = false

[dependencies]
sodiumoxide = "0.2"
clap = { version = "4", features = ["derive"] }
rust-i18n = "2"
machine-uid = "*"
arboard = { version = "3", default-features = false }

[dev-dependencies]
regex = "1"
