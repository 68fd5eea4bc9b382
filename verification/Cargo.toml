[package]
name = "seed_homepage"
version = "0.1.0"
edition = "2021"
publish = false

[dependencies]
seed = "0.2"
wasm-bindgen = "0.2"
