[package]
name = "imview"
version = "0.1.0"
edition = "2021"
publish = false

[dependencies]
arrayvec = "0.7"
cached = { version = "*", default-features = false }
clap = { version = "3", features = ["derive"] }
crossbeam = "0.8"
eframe = "0.18"
egui_extras = "0.18"
epaint = "0.18"
image = "0.24"
log = "0.4"
notify = "4"
num_cpus = "1"
rayon = "1"
simple_logger = "2"
