[package]
name = "sprinkler_api"
version = "0.1.0"
edition = "2021"
publish = false

[dependencies]
bytes = "0.4"
byteorder = "1"
chrono = "0.4"
tokio = "0.1"
futures = "0.1"
tokio-tls = "0.2"
native-tls = "0.2"
sys-info = "0.5"
log = "0.4"
fern = "0.5"
clap = "2"
