[package]
name = "dashboard"
version = "0.1.0"
edition = "2021"
publish = false

[dependencies]
anyhow = "*"
console_error_panic_hook = "*"
gloo-net = "*"
leptos = { version = "*", features = ["csr"] }
leptos_router = "*"
leptos-use = "*"
serde = { version = "*", features = ["derive"] }
