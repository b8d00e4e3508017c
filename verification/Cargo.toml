[package]
name = "toastr"
version = "0.1.0"
edition = "2021"

[dependencies]
dioxus = { version = "0.6", default-features = false, features = ["macro", "html", "signals", "hooks", "document"] }
futures-timer = "3"
