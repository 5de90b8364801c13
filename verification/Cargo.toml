[package]
name = "repo_audit"
version = "0.1.0"
edition = "2021"
publish = false

[dependencies]
chrono = "*"
regex = "*"
xlsxwriter = "*"
