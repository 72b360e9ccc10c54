[package]
name = "voice_translator"
version = "0.2.0"
edition = "2021"
publish = false

[dependencies]
async-trait = "0.1"
eframe = { version = "0.29", default-features = false, features = ["default_fonts", "glow", "x11"] }
egui = "0.29"
reqwest = { version = "0.12", default-features = false, features = ["json"] }
serde = { version = "1", features = ["derive"] }
serde_json = "1"
tokio = { version = "1", features = ["rt", "macros", "net", "io-util", "time"] }
