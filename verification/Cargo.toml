[package]
name = "embed"
version = "0.1.0"
edition = "2021"
publish = false

[dependencies]
env_logger = "0.11.11"
pollster = "0.4.0"
ui-events = "=0.3.0"
ui-events-winit = "=0.3.0"
wgpu = "=28.0.0"
winit = "=0.30.13"
