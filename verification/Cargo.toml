[package]
name = "wtp_downloader"
version = "0.1.0"
edition = "2021"
publish = false
