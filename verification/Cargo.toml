[package]
name = "dnfile"
version = "0.1.0"
edition = "2021"
publish = false

[dependencies]
byteorder = "*"
goblin = "*"
uuid = "*"
serde = { version = "*", features = ["derive"] }
thiserror = "*"
