[package]
name = "monty_rs"
version = "0.1.0"
edition = "2021"
publish = false

[dependencies]
rand_core = "0.6"
rand_xorshift = "0.3"
tinyvec = "1"
num_cpus = "1"
num-format = "0.4"
libc-print = "0.1"
