[package]
name = "relm"
version = "0.1.0"
edition = "2021"
publish = false

[dependencies]
futures = "=0.1.31"
glib-itc = "=0.1.4"
gtk = "=0.1.3"
relm-core = "=0.1.4"
tokio-core = "=0.1.18"
