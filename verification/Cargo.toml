[package]
name = "sticker_export"
version = "0.1.0"
edition = "2021"
publish = false

[dependencies]
anyhow = "=1.0.104"
dotenv = "=0.15.0"
dptree = "=0.5.1"
futures = "=0.3.34"
image = { version = "=0.25.10", default-features = false, features = ["bmp", "gif", "jpeg", "png", "rayon", "webp"] }
infer = "=0.22.0"
log = "=0.4.34"
pretty_env_logger = "=0.5.0"
reqwest = { version = "=0.12.28", default-features = false, features = ["rustls-tls"] }
takecell = "=0.1.1"
teloxide = { version = "=0.17.0", default-features = false, features = ["macros", "rustls"] }
tempfile = "=3.27.0"
tokio = { version = "=1.53.2", features = ["macros", "rt-multi-thread", "fs"] }
zip = { version = "=8.6.0", default-features = false, features = ["deflate"] }
