[package]
name = "inspect_error"
version = "0.1.0"
edition = "2021"
