[package]
name = "tracemon"
version = "0.1.0"
edition = "2021"
publish = false

[dependencies]
rand = "0.9"
mime_guess = "2"
clap = { version = "4", features = ["derive"] }
colored = "*"
ctrlc = "3"
tiny_http = "0.12"
chrono = "0.4"
reqwest = { version = "0.12", default-features = false, features = ["blocking", "json"] }
serde = { version = "1", features = ["derive"] }
