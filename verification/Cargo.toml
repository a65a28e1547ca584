[package]
name = "remote_controller"
version = "0.1.0"
edition = "2021"
publish = false

[dependencies]
defmt = "*"
esp-alloc = "*"
esp-bootloader-esp-idf = "*"
esp-hal = "*"
esp-println = "*"
esp-wifi = "*"
