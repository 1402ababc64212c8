[package]
name = "erfps2"
version = "0.1.0"
edition = "2021"
publish = false

[dependencies]
bitvec = "=1.1.1"
closure-ffi = "=5.1.2"
eldenring = "=0.14.0"
eyre = "=0.6.14"
fromsoftware-shared = "=0.14.0"
glam = "=0.34.1"
log = "=0.4.34"
pmod = "=0.2.5"
serde = { version = "=1.0.229", features = ["derive"] }
simplelog = "=0.12.2"
toml = "=1.1.8"
windows = { version = "=0.61.3", features = ["Win32_Foundation", "Win32_System_LibraryLoader", "Win32_System_Memory", "Win32_System_SystemServices"] }
winhook = "=0.1.2"
