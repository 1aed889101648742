[package]
name = "regite"
version = "0.1.0"
edition = "2021"
publish = false

[dependencies]
regex = "*"
shlex = "*"
serde = { version = "*", features = ["derive"] }
toml = "*"
ctrlc = "*"
log = "*"
chrono = "*"
structopt = "*"
