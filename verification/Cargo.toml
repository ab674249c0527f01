[package]
name = "golem_wordle"
version = "0.1.0"
edition = "2021"
publish = false

[dependencies]
chrono = "0.4"
error-stack = "0.4"
kinded = "*"
once_cell = "1"
rand = "0.8"
sealed = "*"
