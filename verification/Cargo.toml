[package]
name = "qrscan"
version = "0.1.0"
edition = "2021"
publish = false

[dependencies]
image = "0.24"
imageproc = "0.23"
rqrr = "*"
quircs = "*"
rxing = "*"
bardecoder = "0.5"
zbar-pack = "*"
walkdir = "*"
clap = { version = "4", features = ["derive"] }
colored = "*"
env_logger = "*"
log = "*"
serde = { version = "1", features = ["derive"] }
serde_json = "1"
anyhow = "1"
