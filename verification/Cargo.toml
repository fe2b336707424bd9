[package]
name = "glonax"
version = "0.1.0"
edition = "2021"
publish = false

[dependencies]
bytes = "1"
tokio = { version = "1", features = ["net", "io-util", "fs", "rt", "macros", "time", "sync"] }
serde = { version = "1", features = ["derive"] }
serde_derive = "1"
termios = "0.3"
libc = "0.2"
log = "0.4"
