[package]
name = "ladder_app"
version = "0.1.0"
edition = "2021"
publish = false

[dependencies]
bigdecimal = "0.4"
chrono = { version = "0.4", default-features = false, features = ["clock", "std"] }
egui = "0.27"
egui_plot = "0.27"
rhai = "1"
rustls = { version = "0.23", default-features = false, features = ["ring", "std"] }
tokio = { version = "1", features = ["macros", "rt", "rt-multi-thread", "sync", "time"] }
