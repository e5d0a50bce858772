[package]
name = "ft232_sensor_interface"
version = "0.1.0"
edition = "2021"
publish = false

[dependencies]
thiserror = "=1.0.69"
clap = { version = "4", features = ["derive"] }
ctrlc = "3"
hdf5 = "0.8"
chrono = "0.4"
rustfft = "6"
num-complex = "0.4"
