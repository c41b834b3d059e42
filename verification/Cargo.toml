[package]
name = "oto"
version = "0.1.0"
edition = "2021"
publish = false

[dependencies]
alsa = "0.9"
anyhow = "1"
clap = { version = "4", features = ["derive"] }
directories = "5"
id3 = "1"
ringbuf = "0.4"
sqlx = { version = "0.8", default-features = false, features = ["sqlite", "runtime-tokio", "derive"] }
symphonia = "0.5"
tokio = { version = "1", features = ["rt-multi-thread", "macros"] }
walkdir = "2"
