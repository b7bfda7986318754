[package]
name = "gui_bootstrap"
version = "0.1.0"
edition = "2021"
publish = false

[dependencies]
cocoa = "=0.27.0"
objc = "=0.2.7"
