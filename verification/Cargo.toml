[package]
name = "pdf_ocr"
version = "0.1.0"
edition = "2021"
publish = false

[dependencies]
anyhow = "=1.0.104"
clap = { version = "=4.6.7", features = ["derive"] }
image = "=0.24.9"
imageproc = "=0.23.1"
log = "=0.4.34"
pdfium-render = { version = "=0.8.37", default-features = false, features = ["image_024", "pdfium_latest", "thread_safe"] }
tempfile = "=3.27.0"
tesseract = "=0.15.2"
thiserror = "=1.0.69"
