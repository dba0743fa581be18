[package]
name = "taxonomy_router"
version = "0.1.0"
edition = "2021"
publish = false

[dependencies]
serde_json = "1"
iron = "0.6"
hyper = "0.10"
