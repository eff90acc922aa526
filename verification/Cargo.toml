[package]
name = "sekolah"
version = "0.1.0"
edition = "2021"
publish = false

[dependencies]
base64 = "=0.23.1"
bcrypt = "=0.19.3"
chrono = { version = "=0.4.45", features = ["serde"] }
uuid = { version = "=1.27.0", features = ["v4", "serde"] }
serde = { version = "*", features = ["derive"] }
serde_json = "*"
jsonwebtoken = "*"
actix-web = "*"
actix-cors = "*"
actix-multipart = "*"
reqwest = { version = "*", default-features = false, features = ["json", "rustls-tls"] }
