[package]
name = "bao"
version = "0.1.0"
edition = "2021"
publish = false

[dependencies]
clang = "*"
clang-sys = "*"
clap = "2"
goblin = "*"
log = "*"
pdb_wrapper = "*"
serde = "*"
serde_derive = "*"
serde_json = "*"
simplelog = "*"
snafu = "*"
