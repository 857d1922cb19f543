[package]
name = "curses_game_wrapper"
version = "0.3.0"
edition = "2021"
publish = false

[dependencies]
vte = "0.3"
ascii = "0.9"
slog = "2"
sloggers = { version = "*", default-features = false }
