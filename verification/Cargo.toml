[package]
name = "demo_crawler"
version = "0.1.0"
edition = "2021"
publish = false

[dependencies]
source-demo-tool = "*"
