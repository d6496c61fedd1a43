[package]
name = "astarte_srv_info"
version = "0.1.0"
edition = "2021"
publish = false

[dependencies]
astarte-fdo-protocol = "*"
serde = "*"
url = "*"
