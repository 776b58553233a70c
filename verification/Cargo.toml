[package]
name = "lemon_launcher"
version = "0.1.0"
edition = "2021"
publish = false

[dependencies]
anyhow = "*"
clap = { version = "*", features = ["derive"] }
configparser = "*"
quick-xml = { version = "*", features = ["serialize"] }
rusqlite = { version = "*", features = ["bundled"] }
sdl2 = { version = "*", features = ["image", "ttf"] }
serde = { version = "*", features = ["derive"] }
serde-env = "*"
thiserror = "*"
toml = "*"
