[package]
name = "interactive_worktree"
version = "0.1.0"
edition = "2021"
publish = false

[dependencies]
anyhow = "1"
inquire = "0.7"
