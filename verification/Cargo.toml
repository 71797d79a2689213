[package]
name = "ripsed"
version = "0.2.5"
edition = "2021"
publish = false

[dependencies]
regex = "1"
strsim = "0.11"
ignore = "0.4"
serde = { version = "1", features = ["derive"] }
serde_json = "1"
toml = "0.8"
clap = { version = "4", features = ["derive"] }
rayon = "1"
tempfile = "3"
memmap2 = "0.9"
libc = "0.2"
