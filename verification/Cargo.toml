[package]
name = "interaction_model"
version = "0.1.0"
edition = "2021"
publish = false

[dependencies]
serde = "1"
twilight-model = "0.9"
