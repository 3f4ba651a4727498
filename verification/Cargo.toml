[package]
name = "unsplash_image"
version = "0.1.0"
edition = "2021"
publish = false

[dependencies]
libc = "0.2"
reqwest = { version = "0.12", features = ["blocking", "json"] }
serde = { version = "1", features = ["derive"] }
