[package]
name = "unpack_engine"
version = "0.1.0"
edition = "2021"
publish = false

[dependencies]
flate2 = "1"
bzip2 = { version = "=0.4.4", features = ["static"] }
lz4_flex = "0.11"
snap = "1"
xz2 = { version = "0.1", features = ["static"] }
zstd = "=0.13.3"
zip = { version = "8", default-features = false, features = ["deflate"] }
tempfile = "3"
fs-err = "*"
