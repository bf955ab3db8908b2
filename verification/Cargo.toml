[package]
name = "git_branch_deleter"
version = "0.1.0"
edition = "2021"
publish = false

[dependencies]
git2 = "0.13"
chrono = "0.4"
clap = "2"
crossterm = "0.19"
rpassword = "5"
