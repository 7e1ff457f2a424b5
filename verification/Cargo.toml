[package]
name = "bookshelf"
version = "0.1.0"
edition = "2021"
publish = false

[dependencies]
reqwest = { version = "0.12", default-features = false, features = ["json"] }
leptos = { version = "0.4", features = ["csr"] }
gloo-storage = "0.3"
serde = { version = "1", features = ["derive"] }
thiserror = "1"
getset = "0.1"
