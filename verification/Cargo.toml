[package]
name = "linkshot"
version = "0.1.0"
edition = "2021"
publish = false

[dependencies]
image = { version = "0.25", default-features = false, features = ["png"] }
tiny-skia = "0.11"
egui = "0.29"
egui-phosphor = "0.7"
arboard = { version = "3", default-features = false }
directories = "5"
reqwest = { version = "0.12", default-features = false, features = ["blocking", "multipart", "rustls-tls"] }
serde = { version = "1", features = ["derive"] }
serde_json = "1"
anyhow = "1"
