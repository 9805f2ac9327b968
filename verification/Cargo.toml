[package]
name = "vkdoc"
version = "0.1.0"
edition = "2021"
publish = false

[dependencies]
md5 = "*"
uuid = { version = "*", features = ["v4"] }
serde = { version = "*", features = ["derive"] }
serde_json = "*"
