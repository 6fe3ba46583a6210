[package]
name = "galaxy_gen"
version = "0.1.0"
edition = "2021"
publish = false

[dependencies]
futures = "0.3"
ocl = "0.19"
rand = "0.8"
rand_distr = "0.4"
turborand = "0.10"
