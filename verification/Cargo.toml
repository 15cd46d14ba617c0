[package]
name = "everything_ipc"
version = "0.1.0"
edition = "2021"
publish = false

[dependencies]
widestring = "=1.2.1"
pelite = "=0.10.0"
rapidhash = "=4.5.1"
thiserror = "=2.0.21"
bon = "=3.10.3"
tracing = "=0.1.44"
tokio = { version = "=1.54.1", features = ["sync", "time"] }
windows = { version = "=0.62.2", features = ["Win32_Foundation", "Win32_UI_WindowsAndMessaging", "Win32_System_Threading", "Win32_System_DataExchange", "Win32_UI_Controls", "Win32_Storage_FileSystem"] }
