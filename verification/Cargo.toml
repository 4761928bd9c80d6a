[package]
name = "mumblelink_reader"
version = "0.1.0"
edition = "2021"
publish = false

[dependencies]
libc = "0.2"
thiserror = "1"
winapi = { version = "0.3", features = ["errhandlingapi", "handleapi", "memoryapi", "minwindef", "winnt"] }
