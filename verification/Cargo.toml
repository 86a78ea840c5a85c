[package]
name = "serialpcap"
version = "0.1.0"
edition = "2021"
publish = false

[dependencies]
chrono = "0.4"
clap = "4"
gpio = "*"
pcap-file = "2"
serialport = { version = "4", default-features = false }
