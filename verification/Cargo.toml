[package]
name = "snake"
version = "0.1.0"
edition = "2021"
publish = false

[dependencies]
glam = "*"
rand = "0.8"
enum-iterator = "0.7"
pancurses = "0.17"
winapi = { version = "0.3", features = ["winuser", "profileapi", "winnt", "ntdef"] }
