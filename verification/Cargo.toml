[package]
name = "quick_transfer"
version = "0.1.0"
edition = "2021"
publish = false

[dependencies]
aes = "0.8"
aes-gcm = "0.10"
argparse = "0.2"
bincode = "1.3"
byteorder = "1.5"
colored = "2"
rand = "0.8"
rustyline-async = "0.4"
serde = { version = "1", features = ["derive"] }
thiserror = "1"
tokio = { version = "1", features = ["full"] }
