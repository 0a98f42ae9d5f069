[package]
name = "mstickerlib"
version = "0.1.0"
edition = "2021"
publish = false

[dependencies]
sha2 = "=0.10.9"
flate2 = "=1.1.10"
indexmap = "=2.14.2"
serde_json = "=1.0.154"
anyhow = "=1.0.104"
serde = { version = "=1.0.229", features = ["derive"] }
serde-big-array = "=0.5.1"
tokio = { version = "=1.54.1", features = ["rt", "fs", "io-util", "macros"] }
reqwest = { version = "=0.13.5", default-features = false, features = ["json", "query"] }
futures-util = "=0.3.34"
tempfile = "=3.27.0"
toml = "=1.1.8"
directories = "=6.0.0"
clap = { version = "=4.6.7", features = ["derive"] }
clap_complete = "4"
log = "=0.4.34"
rayon = "=1.12.0"
lottieconv = "=0.3.1"
webp-animation = "=0.10.0"
ffmpeg-next = "=9.0.0"
