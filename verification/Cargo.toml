[package]
name = "pokemmo_companion"
version = "0.1.0"
edition = "2021"
publish = false

[dependencies]
anyhow = "=1.0.104"
clap = { version = "=4.6.7", features = ["derive"] }
eframe = { version = "=0.31.1", default-features = false, features = ["glow", "default_fonts", "persistence", "wayland", "x11"] }
egui = "=0.31.1"
egui_commonmark = "=0.20.0"
egui_extras = { version = "=0.31.1", features = ["image"] }
evdev = "=0.13.2"
indexmap = { version = "=2.14.2", features = ["serde"] }
nix = { version = "=0.31.3", features = ["user"] }
quick-xml = { version = "=0.42.0", features = ["serialize"] }
raw-window-handle = "=0.6.2"
regex = "=1.13.1"
serde = { version = "=1.0.229", features = ["derive"] }
serde_json = { version = "=1.0.154", features = ["preserve_order"] }
toml = "=1.1.8"
users = "=0.11.0"
x11rb = "=0.13.2"
xkeysym = "=0.2.1"
