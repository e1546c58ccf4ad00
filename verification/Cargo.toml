[package]
name = "orpheusdl-tray"
version = "0.1.0"
edition = "2021"
publish = false

[dependencies]
chrono = { version = "=0.4.45", default-features = false, features = ["clock"] }
clap = { version = "=4.6.7", features = ["derive"] }
directories = "=5.0.1"
http-types = { version = "=2.12.0", default-features = false }
image = { version = "=0.25.10", default-features = false, features = ["bmp", "dds", "ff", "gif", "hdr", "ico", "jpeg", "png", "pnm", "qoi", "tga", "tiff", "webp"] }
log = "=0.4.35"
open = "=5.4.5"
serde = { version = "=1.0.229", features = ["derive"] }
simplelog = "=0.12.2"
tide = { version = "=0.16.0", default-features = false, features = ["h1-server"] }
tokio = { version = "=1.54.1", features = ["macros", "rt-multi-thread", "time", "process", "signal", "sync"] }
toml = "=0.8.23"
winit = { version = "=0.30.13", default-features = false, features = ["x11", "rwh_06"] }
