[package]
name = "commit_canvas"
version = "0.1.0"
edition = "2021"
publish = false

[dependencies]
chrono = "0.4"
clap = { version = "4", features = ["derive"] }
git2 = { version = "*", default-features = false }
image = { version = "0.25", default-features = false, features = ["png", "jpeg", "gif", "bmp", "pnm", "tga", "ico", "qoi"] }

[dev-dependencies]
tempfile = "3"
