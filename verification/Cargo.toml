[package]
name = "parakeet_ptt"
version = "0.1.0"
edition = "2021"
publish = false

[dependencies]
anyhow = "1"
clap = { version = "4", features = ["derive", "env"] }
evdev = { version = "*", features = ["tokio"] }
fontdue = "*"
futures = "0.3"
http = "1"
libc = "0.2"
reqwest = { version = "*", default-features = false, features = ["json", "stream"] }
serde = { version = "1", features = ["derive"] }
serde_json = "1"
tokio = { version = "1", features = ["full"] }
tokio-tungstenite = "*"
tracing = "0.1"
tracing-subscriber = { version = "0.3", features = ["env-filter"] }
url = "2"
uuid = { version = "1", features = ["v4", "serde"] }
wayland-client = "*"
wayland-protocols = { version = "*", features = ["client", "staging"] }
wayland-protocols-wlr = { version = "*", features = ["client"] }
which = "*"

[dev-dependencies]
tempfile = "3"
