[package]
name = "bing_iotd"
version = "0.1.0"
edition = "2021"
publish = false

[dependencies]
serde_json = "=1.0.151"
image = { version = "=0.25.10", default-features = false, features = ["bmp", "dds", "exr", "ff", "gif", "hdr", "ico", "jpeg", "png", "pnm", "qoi", "tga", "tiff", "webp"] }
chrono = "=0.4.45"
reqwest = { version = "=0.13.5", default-features = false, features = ["blocking"] }

[dev-dependencies]
rand = "=0.8.8"
