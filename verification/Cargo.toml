[package]
name = "bugbite"
version = "0.1.0"
edition = "2021"
publish = false

[dependencies]
base64 = "*"
byte-unit = "*"
camino = "*"
chrono = "*"
config = { version = "*", default-features = false, features = ["toml"] }
crossterm = "*"
futures-util = "*"
humansize = "*"
indexmap = "*"
infer = "*"
itertools = "*"
ordered-multimap = "*"
regex = "*"
reqwest = { version = "*", default-features = false, features = ["json", "cookies"] }
serde = { version = "*", features = ["derive"] }
serde_json = "*"
serde_with = "*"
strum = { version = "*", features = ["derive"] }
tempfile = "*"
textwrap = "*"
thiserror = "*"
toml = "*"
unicode-segmentation = "*"
url = "*"
