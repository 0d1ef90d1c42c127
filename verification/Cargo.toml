[package]
name = "git2_commit"
version = "0.1.0"
edition = "2021"
publish = false

[dependencies]
git2 = { version = "=0.21.0", default-features = false, features = ["cred"] }
url = "=2.5.8"
log = "=0.4.34"
env_logger = "=0.11.11"
structopt = "=0.3.26"
