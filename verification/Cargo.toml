[package]
name = "qrforge"
version = "0.1.0"
edition = "2021"
publish = false

[dependencies]
url = "2"
serde = { version = "1", features = ["derive"] }
serde_json = "1"
tempfile = "3"
webbrowser = "1"
arboard = "3"
xcap = "0.7"
zxing-cpp = "0.5"
