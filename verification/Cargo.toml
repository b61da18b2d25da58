[package]
name = "apollo"
version = "0.1.0"
edition = "2021"
publish = false

[dependencies]
anyhow = "1"
fnv = "1"
gdk = "0.18"
gio = "0.18"
glib = "0.18"
gstreamer = "0.21"
gstreamer-video = "0.21"
gtk = "0.18"
redis = "0.23"
serde = { version = "1", features = ["derive"] }
serde_yaml = "0.9"
tokio = { version = "1", features = ["macros", "rt-multi-thread", "sync", "time"] }
tracing = "0.1"
tracing-subscriber = "0.3"
warp = "0.3"
