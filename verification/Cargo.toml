[package]
name = "silicon_translater"
version = "0.1.0"
edition = "2021"
publish = false

[dependencies]
reqwest = { version = "=0.11.27", features = ["json"] }
serde = { version = "=1.0.229", features = ["derive"] }
thiserror = "=1.0.69"
tokio = { version = "=1.54.1", features = ["macros", "rt-multi-thread", "sync", "time"] }
tracing = "=0.1.44"
tracing-subscriber = { version = "=0.3.23", features = ["env-filter"] }
windows = { version = "0.48", features = ["Win32_Foundation", "Win32_Security_Credentials", "Win32_System_DataExchange", "Win32_System_Memory", "Win32_UI_WindowsAndMessaging"] }
