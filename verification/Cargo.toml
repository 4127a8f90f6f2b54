[package]
name = "chess_or_pass"
version = "0.1.0"
edition = "2021"
publish = false

[dependencies]
shakmaty = "=0.29.4"
sha2 = "=0.11.0"
rand = "=0.10.3"
cuid2 = "=0.1.6"
