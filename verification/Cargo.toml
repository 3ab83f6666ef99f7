[package]
name = "slaq"
version = "0.1.0"
edition = "2021"
publish = false

[dependencies]
serde_json = { version = "1", features = ["preserve_order"] }
serde = { version = "1", features = ["derive"] }
serde_with = { version = "3", default-features = false, features = ["macros"] }
thiserror = "2"
reqwest = { version = "0.12", default-features = false, features = ["blocking", "json"] }
