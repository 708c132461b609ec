[package]
name = "pcmanx-rs"
version = "0.1.0"
edition = "2021"
publish = false

[dependencies]
encoding_rs = "0.8"
unicode-width = "0.2"
vte = "0.13"
tokio = { version = "1", features = ["full"] }
serde = { version = "1", features = ["derive"] }
serde_json = "1"
anyhow = "1"
dirs = "5"
notify-rust = "4"
log = "0.4"
env_logger = "0.11"
gtk4 = "0.9"
gdk4 = "0.9"
gio = "0.20"
glib = "0.20"
cairo-rs = "0.20"
pango = "0.20"
pangocairo = "0.20"
