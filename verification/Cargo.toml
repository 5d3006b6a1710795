[package]
name = "devlg"
version = "0.1.0"
edition = "2021"
publish = false

[dependencies]
anyhow = "*"
clap = { version = "*", features = ["derive"] }
dialoguer = "*"
dirs = "*"
rpassword = "*"
serde = { version = "*", features = ["derive"] }
ssh2 = "*"
termios = "*"
toml = "*"
