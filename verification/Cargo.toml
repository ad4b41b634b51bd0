[package]
name = "xibt"
version = "0.1.0"
edition = "2021"
publish = false

[dependencies]
rand = "0.8"
sxd-document = "0.3"
sxd-xpath = "0.4"
structopt = "0.3"
exitfailure = "0.5"
failure = "0.1"
