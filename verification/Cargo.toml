[package]
name = "nova_launcher"
version = "0.1.0"
edition = "2021"
publish = false

[dependencies]
reqwest = { version = "=0.12.28", default-features = false, features = ["blocking", "json"] }
serde = { version = "=1.0.229", features = ["derive"] }
iced = { version = "=0.14.0", default-features = false, features = ["tiny-skia", "lazy", "x11", "thread-pool"] }
