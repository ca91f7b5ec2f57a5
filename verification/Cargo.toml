[package]
name = "momentum_cascade"
version = "0.1.0"
edition = "2021"
publish = false

[dependencies]
candle-core = "*"
rand = "0.8"
rand_distr = "0.4"
statrs = "0.17"
linregress = "*"
rayon = "*"
indicatif = "*"
textplots = "*"
