[package]
name = "oxidize_pdf_editor"
version = "0.1.0"
edition = "2021"
publish = false

[dependencies]
anyhow = "*"
image = "*"
pdfium-render = "*"
tracing = "*"
tracing-subscriber = { version = "*", features = ["env-filter"] }
