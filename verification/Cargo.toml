[package]
name = "leptos_icons"
version = "0.1.0"
edition = "2021"
publish = false

[dependencies]
icondata_core = "0.1"
leptos = "0.7"
