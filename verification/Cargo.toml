[package]
name = "st7735_core"
version = "0.1.0"
edition = "2021"
publish = false

[dependencies]
anyhow = "*"
esp-idf-svc = "*"
log = "*"
st7735-lcd = "*"
