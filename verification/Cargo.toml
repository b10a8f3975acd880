[package]
name = "frame_decoder"
version = "0.1.0"
edition = "2021"

[dependencies]
pcap = "*"
