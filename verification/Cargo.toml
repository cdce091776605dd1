[package]
name = "bsru"
version = "0.1.0"
edition = "2021"

[dependencies]
serde = { version = "1", features = ["derive"] }
simple-easing = "1"
indexmap = { version = "2", features = ["serde"] }
ordered-float = "5"
