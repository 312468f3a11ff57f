[package]
name = "deck_bridge"
version = "0.1.0"
edition = "2021"
publish = false

[dependencies]
dotenv = "*"
hass-rs = "*"
image = "*"
mirajazz = "*"
serde = { version = "*", features = ["derive"] }
serde_json = "*"
tokio = { version = "*", features = ["macros", "rt-multi-thread", "signal", "time"] }
toml = "*"
