[package]
name = "neodojo"
version = "0.1.0"
edition = "2021"
publish = false

[dependencies]
anstyle = "1"
anyhow = "1"
clap = { version = "4", features = ["derive"] }
clap_complete = "4"
clap-verbosity-flag = "*"
codespan-reporting = "0.11"
colored = "2"
compose_spec = "*"
indent = "*"
indicatif = "0.17"
itertools = "*"
serde = { version = "1", features = ["derive"] }
serde_json = "1"
serde-sarif = "*"
tempfile = "3"
thiserror = "1"
