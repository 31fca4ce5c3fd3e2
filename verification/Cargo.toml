[package]
name = "traydio"
version = "0.1.0"
edition = "2021"
publish = false

[dependencies]
kdl = "4"
ksni = "0.3"
tokio = { version = "1", features = ["macros", "rt"] }
xdg = "3"
