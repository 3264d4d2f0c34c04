[package]
name = "hypebot"
version = "0.1.0"
edition = "2021"
publish = false

[dependencies]
chrono = "0.4"
chrono-tz = "*"
strfmt = "*"
url = "*"
clap = "*"
config = "*"
serde = { version = "*", features = ["derive"] }
log = "*"
log4rs = "*"
white_rabbit = "*"
