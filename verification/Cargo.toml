[package]
name = "gcsf"
version = "0.1.0"
edition = "2021"
publish = false

[dependencies]
clap = "2"
config = { version = "0.9", default-features = false, features = ["toml"] }
ctrlc = "3"
failure = { version = "0.1", default-features = false, features = ["std"] }
fuse = "0.3"
itertools = "0.7"
log = "0.4"
pretty_env_logger = "0.2"
xdg = "2"
