[package]
name = "nutrient_optimizer"
version = "0.1.0"
edition = "2021"
publish = false

[dependencies]
anyhow = "1"
dioxus = { version = "0.6", default-features = false, features = ["macro", "html", "signals", "hooks", "launch", "document"] }
good_lp = { version = "1", default-features = false, features = ["microlp"] }
