[package]
name = "remocom"
version = "0.1.0"
edition = "2021"
publish = false

[dependencies]
toml = "*"
log = "*"
simple_logger = "*"
structopt = "*"
cargo_metadata = "*"
xdg = "*"
