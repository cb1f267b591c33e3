[package]
name = "sync_signal"
version = "0.1.0"
edition = "2021"
publish = false

[dependencies]
leptos = "0.6"
default-struct-builder = "0.5"
