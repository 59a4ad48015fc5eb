[package]
name = "udf_resimcisi"
version = "0.1.0"
edition = "2021"
publish = false

[dependencies]
anyhow = "1"
arboard = "3"
base64 = "0.22"
chrono = "0.4"
kamadak-exif = "0.6"
image = { version = "0.25", default-features = false, features = ["png", "jpeg", "webp", "bmp", "tiff", "gif"] }
serde = { version = "1", features = ["derive"] }
serde_json = "1"
ureq = "2"
zip = { version = "2", default-features = false, features = ["deflate"] }
