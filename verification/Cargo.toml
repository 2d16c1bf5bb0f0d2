[package]
name = "meta_task"
version = "0.1.0"
edition = "2021"
publish = false

[dependencies]
clap = "*"
dialoguer = "*"
dirs = "*"
tmux_interface = "*"
