[package]
name = "react_boundary"
version = "0.1.0"
edition = "2021"
publish = false

[dependencies]
oxc = "=0.144.0"
