[package]
name = "vcs_modify_guard"
version = "0.1.0"
edition = "2021"
publish = false

[dependencies]
dunce = "1"
git2 = { version = "0.20", default-features = false }
snafu = "0.8"
