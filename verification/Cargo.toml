[package]
name = "repostat"
version = "0.1.0"
edition = "2021"
publish = false

[dependencies]
git2 = { version = "*", default-features = false }
structopt = "*"
termcolor = "*"

[dev-dependencies]
tempfile = "*"
