[package]
name = "winio_mapper"
version = "0.1.0"
edition = "2021"
publish = false

[dependencies]
memflow = "=0.2.4"
windows = { version = "=0.61.3", features = ["Win32_Foundation", "Win32_Storage_FileSystem", "Win32_System_IO", "Win32_Security"] }
