[package]
name = "azul_window"
version = "0.1.0"
edition = "2021"
publish = false

[dependencies]
cassowary = "=0.3.0"
euclid = "=0.22.14"
gleam = "=0.15.1"
glium = "=0.23.0"
webrender = "=0.70.0"
