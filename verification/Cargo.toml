[package]
name = "redux_light"
version = "0.1.0"
edition = "2021"
publish = false

[dependencies]
handlebars = "*"
nickel = "*"
rustc-serialize = "0.3"
serde = { version = "1", features = ["derive"] }
serde_json = "1"
