[package]
name = "status_console"
version = "0.1.0"
edition = "2021"
publish = false

[dependencies]
base64 = "0.13"
chrono = "0.4"
regex = "1"
serde_json = "1"
eframe = "0.16"
google-calendar3 = "2"
hyper = { version = "0.14", features = ["full"] }
hyper-rustls = "0.22"
input = "0.7"
nix = "0.23"
tokio = { version = "1", features = ["full"] }
yup-oauth2 = "5"
