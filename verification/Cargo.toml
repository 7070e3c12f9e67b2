[package]
name = "shop_backend"
version = "0.1.0"
edition = "2021"
publish = false

[dependencies]
axum = { version = "0.8", features = ["ws", "multipart", "macros"] }
axum-server = { version = "0.7", features = ["tls-rustls"] }
tokio = { version = "1", features = ["full"] }
sqlx = { version = "0.8", default-features = false, features = ["sqlite", "runtime-tokio", "macros", "migrate"] }
reqwest = { version = "0.12", default-features = false, features = ["json", "multipart", "rustls-tls"] }
serde = { version = "1", features = ["derive"] }
serde_json = "1"
jsonwebtoken = "9"
chrono = "0.4"
dotenvy = "0.15"
anyhow = "1"
futures-util = "0.3"
tower-http = { version = "0.6", features = ["cors"] }
tower_governor = "0.7"
rand = "0.9"
bcrypt = "*"
hmac = "0.12"
sha2 = "0.10"
hex = "0.4"
regex = "1"
image = { version = "0.25", default-features = false, features = ["png", "jpeg", "tga", "qoi", "webp"] }
png = "0.18"
jpeg-decoder = "0.3"
zstd = "0.13"
bzip2 = "*"
xz2 = "0.1"
webp = "0.3"
exr = "1"
libheif-rs = "*"
