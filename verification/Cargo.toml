[package]
name = "git_branch"
version = "0.1.0"
edition = "2021"
publish = false

[dependencies]
libgit2-sys = { version = "*", default-features = false }
