[package]
name = "mysql_cdc"
version = "0.1.0"
edition = "2021"
publish = false

[dependencies]
async-stream = "0.3"
byteorder = "1"
futures-core = "0.3"
hex = "0.4"
thiserror = "1"
tokio = { version = "1", features = ["net", "io-util"] }
