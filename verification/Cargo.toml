[package]
name = "ferrisdb_storage"
version = "0.1.0"
edition = "2021"
publish = false

[dependencies]
anyhow = "1"
byteorder = "1"
bytes = "1"
crc32fast = "1"
parking_lot = "0.12"
rand = "0.8"
