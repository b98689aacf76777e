[package]
name = "mistserver_rs"
version = "0.1.0"
edition = "2021"
publish = false

[dependencies]
md5 = "*"
url = "*"
serde = { version = "*", features = ["derive"] }
serde_json = "*"
serde_tuple = "*"
thiserror = "*"
reqwest = { version = "*", default-features = false, features = ["json"] }
