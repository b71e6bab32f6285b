[package]
name = "settings_lib"
version = "0.1.0"
edition = "2021"
publish = false

[dependencies]
chrono = { version = "=0.4.45", default-features = false, features = ["clock", "std"] }
discord-rich-presence = "=0.2.5"
serde = { version = "=1.0.229", features = ["derive"] }
serde_json = "=1.0.154"
reqwest = { version = "=0.12.28", default-features = false, features = ["blocking", "rustls-tls"] }
sysinfo = { version = "=0.30.13", default-features = false }
egui = "0.28"
egui_extras = { version = "0.28", default-features = false }
