[package]
name = "relic_ocr"
version = "0.1.0"
edition = "2021"
publish = false

[dependencies]
levenshtein = "=1.0.5"
anyhow = "=1.0.104"
crossbeam-channel = "=0.5.17"
home = "=0.5.12"
image = { version = "=0.24.9", default-features = false, features = ["png"] }
serde = { version = "=1.0.229", features = ["derive"] }
serde_json = "=1.0.154"
tesseract = "=0.15.2"
colored = "=2.2.0"
device_query = "=4.0.1"
screenshot-rs = "=0.1.5"
wfm_rs = "=0.1.1"
tokio = { version = "=1.54.1", features = ["rt-multi-thread", "macros", "time"] }
text_io = "=0.1.13"
