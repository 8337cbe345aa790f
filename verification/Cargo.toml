[package]
name = "tempo"
version = "0.1.0"
edition = "2021"
publish = false

[dependencies]
levenshtein = "=1.0.5"
pathfinding = "=4.16.0"
md5 = "=0.8.1"
uuid = { version = "=1.29.0", features = ["v4"] }
mime = "=0.3.17"
url = "=2.5.8"
urlencoding = "=2.1.3"
strfmt = "=0.2.6"
serde = { version = "=1.0.229", features = ["derive"] }
serde_json = "=1.0.154"
serde_qs = "=1.1.3"
argon2 = "=0.5.3"
pbkdf2 = { version = "=0.12.2", features = ["simple"] }
scrypt = { version = "=0.11.0", features = ["simple"] }
password-hash = "=0.5.0"
rand = "=0.8.8"
scraper = "=0.29.0"
infer = "=0.22.0"
sha256 = { version = "=1.6.0", default-features = false }
image = { version = "=0.25.10", default-features = false, features = ["rayon", "bmp", "dds", "exr", "ff", "gif", "hdr", "ico", "jpeg", "png", "pnm", "qoi", "tga", "tiff", "webp"] }
serde_urlencoded = "=0.7.1"
