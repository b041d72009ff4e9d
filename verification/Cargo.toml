[package]
name = "robots_harness"
version = "0.1.0"
edition = "2021"
publish = false

[dependencies]
clap = { version = "*", features = ["derive"] }
csv = "*"
junit-report = "*"
lenient_bool = "*"
rayon = "*"
texting_robots = "*"
