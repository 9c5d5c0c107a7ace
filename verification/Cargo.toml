[package]
name = "pdf_translator"
version = "0.1.0"
edition = "2021"
publish = false

[dependencies]
genpdf = "*"
pdf-extract = "*"
reqwest = { version = "*", default-features = false, features = ["json"] }
serde = { version = "*", features = ["derive"] }
serde_json = "*"
futures = "*"
