[package]
name = "resume_gen"
version = "0.1.0"
edition = "2021"
publish = false

[dependencies]
clap = "4"
printpdf = "0.7"

[dev-dependencies]
lopdf = "*"
