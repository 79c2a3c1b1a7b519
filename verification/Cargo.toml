[package]
name = "baremetal-raspi"
version = "0.1.0"
edition = "2021"
publish = false

[dependencies]
bcm2837-lpa = { version = "=0.2.2", features = ["critical-section"] }
embedded-hal = "=0.2.7"
nb = "=1.1.0"

[dev-dependencies]
critical-section = { version = "=1.2.0", features = ["std"] }
