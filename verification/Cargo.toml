[package]
name = "pake_shell"
version = "0.1.0"
edition = "2021"
publish = false

[dependencies]
serde_json = "1"
tauri-utils = "=1.6.2"
md5 = "=0.7.0"
dirs = "=4.0.0"
home = "=0.5.12"
