[package]
name = "headjack"
version = "0.1.0"
edition = "2021"
publish = false

[dependencies]
ansi_colours = "*"
anyhow = "*"
argminmax = "*"
clap = { version = "*", features = ["derive"] }
colorous = "*"
crossterm = "*"
image = "*"
lru = "*"
nalgebra = "*"
ndarray = "*"
nifti = { version = "*", features = ["ndarray_volumes"] }
noisy_float = "*"
num = "*"
ratatui = "*"
