[package]
name = "peach_monitor"
version = "0.1.0"
edition = "2021"
publish = false

[dependencies]
nest = "*"
probes = "*"
serde_json = "*"
ctrlc = "*"
structopt = "*"
xdg = "*"

[dev-dependencies]
tempfile = "*"
