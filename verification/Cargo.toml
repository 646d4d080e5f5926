[package]
name = "blog_posts"
version = "0.1.0"
edition = "2021"
publish = false

[dependencies]
askama = "*"
axum = "0.8"
chrono = "0.4"
gray_matter = "*"
http = "1"
pulldown-cmark = "*"
serde = { version = "1", features = ["derive"] }
tokio = { version = "1", features = ["macros", "rt-multi-thread", "net"] }
tower-http = { version = "0.6", features = ["fs", "set-header"] }
tower-layer = "0.3"
walkdir = "2"
