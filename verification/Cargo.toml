[package]
name = "core_calculus"
version = "0.1.0"
edition = "2021"
publish = false

[dependencies]
leptos = { version = "=0.4.10", features = ["ssr"] }
leptos_meta = { version = "=0.4.10", features = ["ssr"] }
leptos_router = { version = "=0.4.10", features = ["ssr"] }
strum = { version = "=0.25.0", features = ["derive"] }
tracing = "=0.1.44"
