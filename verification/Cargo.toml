[package]
name = "apcacli"
version = "0.1.0"
edition = "2021"
publish = false

[dependencies]
apca = "0.1"
futures = "0.1"
num-bigint = "0.2"
num-decimal = "=0.1.0"
simplelog = "0.7"
structopt = "0.2"
tokio = "0.1"
uuid = "=0.7.4"
