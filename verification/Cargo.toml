[package]
name = "rush_interpreter"
version = "0.1.0"
edition = "2021"
publish = false

[dependencies]
color-eyre = "0.6"
itertools = "0.10"
pest = "2"
pest_derive = "2"
thiserror = "1"
