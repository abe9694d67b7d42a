[package]
name = "mfutil"
version = "0.1.1"
edition = "2021"
publish = false

[dependencies]
anyhow = "=1.0.104"
cdparanoia = "=0.1.0"
clap = { version = "=4.6.7", features = ["derive"] }
crossterm = "=0.29.0"
discid = "=0.7.1"
dotenvy = "=0.15.7"
ffmpeg-next = "=9.0.0"
flacenc = "=0.5.1"
gio = "=0.22.10"
lofty = "=0.25.4"
magick_rust = "=2.1.1"
musicbrainz_rs = { version = "=0.14.0", features = ["sync", "rustls"] }
rayon = "=1.12.0"
reqwest = { version = "=0.13.5", features = ["json"] }
rustc-hash = "=2.1.3"
serde = { version = "=1.0.229", features = ["derive"] }
serde_json = "=1.0.154"
shellexpand = "=3.1.2"
tokio = { version = "=1.54.1", features = ["full"] }
tracing = "=0.1.44"
urlencoding = "=2.1.3"
walkdir = "=2.5.0"
