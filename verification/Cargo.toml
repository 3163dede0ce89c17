[package]
name = "rlstats_cli"
version = "0.1.0"
edition = "2021"
publish = false

[dependencies]
chrono = "=0.4.45"
clap = "=2.34.0"
prettytable-rs = "=0.10.0"
