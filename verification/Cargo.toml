[package]
name = "rpassword"
version = "0.1.0"
edition = "2021"
publish = false

[dependencies]
rutil = "*"
libc = "*"
winapi = { version = "0.3", features = ["consoleapi", "fileapi", "handleapi", "minwinbase", "minwindef", "ntdef", "processenv", "winbase", "wincon", "winnt"] }
