[package]
name = "dioxus-library-template"
version = "0.1.0"
edition = "2021"
publish = false

[dependencies]
dioxus = { version = "0.4", default-features = false }
tracing = "0.1"
tracing-subscriber = "0.3"
