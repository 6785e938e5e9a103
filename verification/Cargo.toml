[package]
name = "runtime"
version = "0.1.0"
edition = "2021"
publish = false

[dependencies]
rand = "0.7"
redis-module = "*"
crossbeam = "*"
once_cell = "*"
async-task = "1"
futures = "0.3"
num_cpus = "1"
