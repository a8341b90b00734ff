[package]
name = "purpleifypdf"
version = "0.1.0"
edition = "2021"
publish = false

[dependencies]
anyhow = "1"
cairo-rs = "*"
glib = "*"
image = "0.23"
poppler = "*"
printpdf = { version = "0.3", features = ["embedded_images"] }
serde = { version = "1", features = ["derive"] }
serde_json = "1"
thiserror = "1"
