[package]
name = "gnosis_vpn"
version = "0.1.0"
edition = "2021"
publish = false

[dependencies]
anyhow = "1"
bincode = "1"
bpaf = { version = "0.9", features = ["derive"] }
clap = { version = "4", features = ["derive"] }
crossbeam-channel = "0.5"
ctrlc = "3"
directories = "*"
exitcode = "1"
exponential-backoff = "2"
humantime = "2"
libp2p-identity = { version = "0.2", features = ["peerid"] }
notify = { version = "*", features = ["crossbeam-channel"] }
rand = "0.8"
reqwest = { version = "0.12", default-features = false, features = ["blocking", "json"] }
serde = { version = "1", features = ["derive"] }
serde_json = "1"
thiserror = "*"
toml = "*"
tracing = "0.1"
tracing-subscriber = "0.3"
url = { version = "2", features = ["serde"] }
