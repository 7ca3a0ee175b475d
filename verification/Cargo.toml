[package]
name = "sanctum"
version = "0.1.0"
edition = "2021"
publish = false

[dependencies]
serde = { version = "=1.0.229", features = ["derive"] }
leptos = "=0.4.10"
leptos_meta = "=0.4.10"
gloo-net = "=0.3.1"
web-sys = "=0.3.107"
futures = "=0.3.34"
actix-web = "=4.18.1"
actix-ws = "=0.2.5"
actix-rt = "=2.15.0"
tokio = { version = "=1.54.1", features = ["sync", "rt", "rt-multi-thread"] }
rand = "=0.8.8"
