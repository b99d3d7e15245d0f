[package]
name = "vaultapi"
version = "0.1.0"
edition = "2021"
publish = false

[dependencies]
base64 = "*"
ring = "*"
serde_json = "*"
dotenv = "*"
reqwest = { version = "*", default-features = false, features = ["blocking", "json"] }
