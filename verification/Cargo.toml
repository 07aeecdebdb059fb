[package]
name = "upvoted_archiver"
version = "0.1.0"
edition = "2021"
publish = false

[dependencies]
roux = "2"
async-stream = "0.3"
futures-core = "0.3"
