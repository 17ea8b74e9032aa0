[package]
name = "sudoku"
version = "0.1.0"
edition = "2021"

[dependencies]
pancurses = "*"
reqwest = { version = "*", default-features = false, features = ["blocking"] }
scraper = "*"
serde = { version = "*", features = ["derive"] }
serde_json = "*"
