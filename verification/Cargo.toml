[package]
name = "snippet_segments"
version = "0.1.0"
edition = "2021"
publish = false

[dependencies]
run_script = "=0.11.2"
