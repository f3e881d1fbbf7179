[package]
name = "rom_unpack"
version = "0.1.0"
edition = "2021"
publish = false

[dependencies]
argh = "=0.1.19"
eyre = "=0.6.14"
indicatif = { version = "=0.17.11", features = ["rayon"] }
jwalk = "=0.8.1"
parking_lot = "=0.12.5"
rayon = "=1.12.0"
roead = { version = "=0.23.1", default-features = false, features = ["aamp", "byml", "sarc", "with-serde"] }
serde_yaml = "=0.9.34"
zstd = "=0.12.4"
