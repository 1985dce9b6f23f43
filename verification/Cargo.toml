[package]
name = "build_limit_changer"
version = "0.1.0"
edition = "2021"
publish = false

[dependencies]
iced-x86 = "1"
pelite = "0.10"
libc = "0.2"
log = "0.4"
serde = { version = "1", features = ["derive"] }
serde_json = "1"
ctor = "0.2"
jni = "0.21"
dobby-rs = "0.1"
bhook = "*"
windows = { version = "0.48", features = ["ApplicationModel", "Storage"] }
windows-sys = { version = "0.48", features = ["Win32_Foundation", "Win32_System_LibraryLoader", "Win32_System_ProcessStatus", "Win32_System_Threading"] }
