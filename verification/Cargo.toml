[package]
name = "ross_gateway"
version = "0.1.0"
edition = "2021"
publish = false

[dependencies]
chrono = "0.4"
dotenv = "0.15"
dotenv_codegen = "0.15"
jsonwebtoken = "8"
paho-mqtt = "0.9"
serde = { version = "1", features = ["derive"] }
serde_json = "1"
serialport = "4"
