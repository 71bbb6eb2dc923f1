[package]
name = "kappa"
version = "0.1.0"
edition = "2021"
publish = false

[dependencies]
bytemuck = { version = "1", features = ["derive"] }
chrono = { version = "0.4", default-features = false, features = ["clock", "std"] }
log = "0.4"
log4rs = { version = "1", default-features = false, features = ["console_appender", "file_appender", "pattern_encoder"] }
pollster = "0.3"
winit = { version = "0.29", default-features = false, features = ["rwh_05", "x11"] }
