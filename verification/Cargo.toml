[package]
name = "rustty_core"
version = "0.1.0"
edition = "2021"
publish = false

[dependencies]
egui = { version = "=0.36.2", default-features = false, features = ["default_fonts"] }
egui-wgpu = { version = "=0.36.2", default-features = false, features = ["winit", "x11"] }
egui-winit = { version = "=0.36.2", default-features = false, features = ["accesskit", "x11"] }
libc = "=0.2.191"
png = "=0.18.1"
pollster = "=1.0.1"
serde_json = "=1.0.154"
winit = { version = "=0.30.13", default-features = false, features = ["rwh_06", "x11", "wayland-dlopen"] }
