[package]
name = "aocf"
version = "0.1.0"
edition = "2021"
publish = false

[dependencies]
chrono = "0.4"
clap = { version = "3", features = ["derive"] }
clap_complete = "3"
crossterm = "*"
diesel = { version = "1.4", features = ["sqlite"] }
dirs = "4"
failure = "0.1"
glob = "0.3"
html2md = "0.2"
regex = "1"
serde = { version = "1", features = ["derive"] }
serde_json = "1"
tempfile = "3"
termimad = "*"
toml = "0.5"
ureq = "2"
