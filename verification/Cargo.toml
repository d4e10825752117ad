[package]
name = "slideshow_rs"
version = "0.1.0"
edition = "2021"
publish = false

[dependencies]
chrono = "=0.4.45"
configparser = "=3.3.0"
eframe = { version = "=0.22.0", default-features = false, features = ["glow", "default_fonts"] }
egui = "=0.22.0"
egui_extras = "=0.22.0"
env_logger = { version = "=0.10.2", default-features = false }
ffmpeg-next = "=7.1.0"
headless_chrome = "=1.0.22"
image = { version = "=0.24.9", default-features = false, features = ["gif", "jpeg", "ico", "png", "pnm", "tga", "tiff", "webp", "bmp", "hdr", "dxt", "dds", "farbfeld", "jpeg_rayon", "qoi"] }
log = "=0.4.34"
reqwest = { version = "=0.11.27", default-features = false, features = ["json", "stream", "rustls-tls"] }
serde = { version = "=1.0.229", features = ["derive"] }
serde_json = "=1.0.154"
tempfile = "=3.27.0"
tokio = { version = "=1.54.1", features = ["rt-multi-thread", "macros", "time"] }
tokio-stream = "=0.1.19"
url = "=2.5.8"
