[package]
name = "tendermint_proto"
version = "0.1.0"
edition = "2021"
publish = false

[dependencies]
serde = { version = "1", features = ["derive"] }
serde_json = "1"
subtle-encoding = "0.5"
time = { version = "0.3", features = ["parsing", "formatting", "macros"] }
chrono = "0.4"
uuid = "0.8"
getrandom = "0.2"
prost = "0.13"
thiserror = "1"
structopt = "0.3"
