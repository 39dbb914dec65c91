[package]
name = "risto"
version = "0.1.0"
edition = "2021"
publish = false

[dependencies]
anyhow = "1"
clap = { version = "4", features = ["derive"] }
directories = "=5.0.1"
id3 = "1"
rayon = "1"
reqwest = { version = "0.11", features = ["blocking"] }
rodio = { version = "=0.21.1", default-features = false, features = ["flac", "mp3", "mp4", "vorbis", "wav"] }
serde = { version = "1", features = ["derive"] }
serde_json = "1"
shellexpand = "3"
sled = "=0.34.7"
termimad = "0.35"
trash = "5"
twox-hash = "=1.6.3"
walkdir = "2"
