[package]
name = "tunedeck"
version = "0.1.0"
edition = "2021"
publish = false

[dependencies]
anyhow = "*"
crossterm = "*"
id3 = "*"
image = { version = "*", default-features = false, features = ["png", "jpeg"] }
log = "*"
ratatui = "*"
ratatui-image = { version = "*", default-features = false, features = ["crossterm"] }
rodio = { version = "*", default-features = false, features = ["wav"] }
serde = { version = "*", features = ["derive"] }
serde_json = "*"
serde_yaml = "*"
simplelog = "*"
symphonia = { version = "*", default-features = false }
