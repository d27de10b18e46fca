[package]
name = "swat_collector"
version = "0.1.0"
edition = "2021"
publish = false

[dependencies]
dirs = "*"
parking_lot = "*"
thiserror = "*"
tokio = { version = "*", features = ["macros", "net", "rt-multi-thread", "time"] }
twilight-http = "*"
twilight-model = "*"
twilight-util = { version = "*", features = ["builder"] }
twilight-validate = "*"
