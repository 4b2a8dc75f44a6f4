[package]
name = "diffurch"
version = "0.1.0"
edition = "2021"
publish = false

[dependencies]
nalgebra = "0.33"
num = "0.4"
num-traits = "0.2"
hlist2 = "*"
