[package]
name = "gem"
version = "0.1.0"
edition = "2021"
publish = false

[dependencies]
rustc_apfloat = "*"
regex = "*"
clap = "*"
rustyline = "*"
console = "*"
directories = "*"
atty = "*"
