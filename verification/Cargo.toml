[package]
name = "gdcef"
version = "0.1.0"
edition = "2021"
publish = false

[dependencies]
wide = "=1.7.1"
serde = { version = "=1.0.229", features = ["derive"] }
serde_json = "=1.0.154"
plist = "=1.10.3"
process_path = "=0.1.4"
godot = "=0.5.5"
cef = "=156.3.0"
libloading = "=0.9.0"
