[package]
name = "debug_plotter"
version = "0.1.0"
edition = "2021"
publish = false

[dependencies]
log = "=0.4.34"
num-traits = "=0.2.19"
piston_window = "=0.112.0"
plotters = "=0.3.7"
plotters-piston = "=0.3.0"
