[package]
name = "rs_docker_volumes2arrow_ipc"
version = "0.1.0"
edition = "2021"
publish = false

[dependencies]
arrow = "*"
bollard = "*"
clap = { version = "*", features = ["derive"] }
tokio = { version = "*", features = ["rt-multi-thread", "macros"] }
