[package]
name = "kiibohd_atsam4s"
version = "0.1.0"
edition = "2021"
publish = false

[dependencies]
heapless = "=0.7.17"
is31fl3743b = "=0.1.3"
kiibohd-keyscanning = "=0.1.4"
kiibohd-hall-effect-keyscanning = "=0.2.0"
embedded-hal = "=0.2.7"
fugit = "=0.6.0"
