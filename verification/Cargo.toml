[package]
name = "rustcast"
version = "0.1.0"
edition = "2021"
publish = false

[dependencies]
icns = { version = "=0.5.0", default-features = false, features = ["pngio"] }
freedesktop-desktop-entry = { version = "=0.8.3", default-features = false }
glob = "=0.3.4"
rayon = "=1.12.0"
toml = "=1.1.7"
emojis = "=0.9.0"
