[package]
name = "ruffle_native"
version = "0.1.0"
edition = "2021"
publish = false

[dependencies]
url = "=2.5.8"
unicode-ident = "=1.0.27"
tracing = "=0.1.44"
proc-macro2 = "=1.0.107"
quote = "=1.0.47"
syn = { version = "=2.0.119", features = ["full", "extra-traits"] }
winit = "=0.30.13"
objc2 = "=0.6.5"
objc2-foundation = "=0.3.2"
objc2-app-kit = "=0.3.2"
