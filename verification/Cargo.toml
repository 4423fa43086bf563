[package]
name = "mupdf"
version = "0.1.0"
edition = "2021"
publish = false

[dependencies]
font-kit = "=0.14.3"
once_cell = "=1.21.4"
zerocopy = { version = "=0.8.61", features = ["derive"] }
