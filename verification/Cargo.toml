[package]
name = "fbconsole"
version = "0.1.0"
edition = "2021"
publish = false

[dependencies]
noto-sans-mono-bitmap = { version = "0.2.0", default-features = false, features = ["regular", "size_16", "unicode-basic-latin", "unicode-specials"] }
bootloader_api = "0.11"
x86_64 = { version = "0.15", default-features = false, features = ["instructions"] }
