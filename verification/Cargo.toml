[package]
name = "decmp"
version = "0.1.0"
edition = "2021"
publish = false

[dependencies]
encoding_rs = "0.8"
chrono = { version = "0.4", default-features = false, features = ["std", "clock"] }
flate2 = "1"
xz2 = "0.1"
lzma-rs = "0.3"
zip = { version = "*", default-features = false, features = ["deflate", "aes-crypto"] }
tar = "0.4"
zstd = "*"
bzip2 = "*"
sevenz-rust = { version = "0.6", features = ["aes256"] }
walkdir = "2"
unrar = "*"
thiserror = "*"
clap = { version = "4", features = ["derive"] }
crossterm = "*"
ratatui = "*"
syntect = { version = "5", default-features = false, features = ["default-fancy"] }
