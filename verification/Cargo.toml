[package]
name = "plantui"
version = "0.1.0"
edition = "2021"
publish = false

[dependencies]
plantuml-parser = "*"
anyhow = "*"
arboard = "*"
async-process = "*"
clap = { version = "*", features = ["derive"] }
crokey = "*"
directories = "*"
image = "*"
once_cell = "*"
parking_lot = "*"
ratatui = "*"
ratatui-image = "*"
throbber-widgets-tui = "*"
tokio = { version = "*", features = ["macros", "rt-multi-thread", "sync", "time"] }
