[package]
name = "gitea_release"
version = "0.1.0"
edition = "2021"
publish = false

[dependencies]
attohttpc = "*"
glob = "0.3"
serde_json = "1"
