[package]
name = "fun_run"
version = "0.1.0"
edition = "2021"
publish = false

[dependencies]
which_problem = "*"
