[package]
name = "deskserver"
version = "0.1.0"
edition = "2021"
publish = false

[dependencies]
bincode = "=1.3.3"
serde = { version = "1", features = ["derive"] }
chrono = { version = "0.4", default-features = false, features = ["clock"] }
hostname = "0.4"
enigo = { version = "0.2", default-features = false, features = ["xdo"] }
mdns-sd = "0.13"
egui = { version = "0.31", default-features = false, features = ["default_fonts"] }
