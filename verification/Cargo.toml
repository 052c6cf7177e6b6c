[package]
name = "dontfrag"
version = "0.1.0"
edition = "2021"
publish = false

[dependencies]
cfg-if = "1"
libc = "0.2"
tokio = { version = "1", features = ["net"] }
windows-sys = { version = "0.52", features = ["Win32_Networking_WinSock"] }
