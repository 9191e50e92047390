[package]
name = "extract_content"
version = "0.1.0"
edition = "2021"
publish = false

[dependencies]
pdf-extract = "*"
actix-web = "*"
actix-cors = "*"
dotenv = "*"
serde = { version = "*", features = ["derive"] }

[dev-dependencies]
serde_json = "*"
