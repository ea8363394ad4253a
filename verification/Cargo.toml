[package]
name = "trunk_common"
version = "0.1.0"
edition = "2021"
publish = false

[dependencies]
anyhow = "1"
console = "0.15"
fs_extra = "1"
indicatif = "0.17"
remove_dir_all = "*"
tokio = { version = "1", features = ["fs", "rt"] }
