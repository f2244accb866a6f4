[package]
name = "lc3"
version = "0.1.0"
edition = "2021"
publish = false

[dependencies]
log = "0.4"
pretty_env_logger = "0.4"
structopt = "0.3"
termion = "1"
tui = "0.9"
