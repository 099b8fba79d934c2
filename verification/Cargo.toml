[package]
name = "missionreviewer"
version = "0.1.0"
edition = "2021"
publish = false

[dependencies]
hemtt-config = "=1.0.0"
hemtt-preprocessor = "=1.0.0"
hemtt-tokens = "=1.0.0"
peekmore = "=1.3.0"
rayon = "=1.12.0"
