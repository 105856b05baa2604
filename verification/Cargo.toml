[package]
name = "flight_watch"
version = "0.1.0"
edition = "2021"
publish = false

[dependencies]
fltk = "*"
reqwest = { version = "*", default-features = false, features = ["json"] }
serde = { version = "*", features = ["derive"] }
tokio = { version = "*", features = ["macros", "rt-multi-thread", "time"] }
