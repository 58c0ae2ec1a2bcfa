[package]
name = "linear_system_circuit"
version = "0.1.0"
edition = "2021"
publish = false

[dependencies]
halo2-base = "=0.5.5"
