[package]
name = "pageserve"
version = "0.1.0"
edition = "2021"
publish = false

[dependencies]
toml = { version = "0.8", features = ["preserve_order"] }
indexmap = "2"
serde = { version = "1", features = ["derive"] }
rocket = "0.5"
rocket_dyn_templates = { version = "0.1", features = ["tera"] }
confy = "0.6"
dotenv = "0.15"
env_logger = "0.11"
