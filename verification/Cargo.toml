[package]
name = "envio_emails"
version = "0.1.0"
edition = "2021"
publish = false

[dependencies]
chrono = "0.4"
configparser = "3"
diesel = { version = "2", features = ["mysql"] }
lettre = "0.11"
serde = { version = "1", features = ["derive"] }
serde_json = "1"
tera = "1"
