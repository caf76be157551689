[package]
name = "rover_composition"
version = "0.1.0"
edition = "2021"
publish = false

[dependencies]
apollo-parser = "*"
semver = "*"
camino = "*"
apollo-federation-types = "*"
apollo-composition = "*"
serde_yaml = "*"
serde_json = "*"
url = "*"
futures = "*"
