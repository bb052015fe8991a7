[package]
name = "audio_link"
version = "0.1.0"
edition = "2021"
publish = false

[dependencies]
anyhow = "=1.0.104"
auto-launch = "=0.6.0"
axum = "=0.8.9"
crossbeam-queue = "=0.3.14"
mdns-sd = "=0.21.7"
rubato = "=2.0.0"
serde_json = "=1.0.154"
tao = "=0.37.2"
tokio = { version = "=1.54.1", features = ["full"] }
tokio-util = "=0.7.20"
tracing = "0.1"
tracing-subscriber = { version = "0.3", features = ["env-filter"] }
tray-icon = "=0.26.1"
webbrowser = "=1.2.6"
windows = { version = "=0.62.2", features = ["Win32_Foundation", "Win32_Media_Audio", "Win32_Media_Audio_Endpoints", "Win32_Media_KernelStreaming", "Win32_System_Com", "Win32_System_Com_StructuredStorage", "Win32_System_Threading", "Win32_System_Variant", "Win32_Security", "Win32_UI_Input_KeyboardAndMouse", "Win32_NetworkManagement_IpHelper", "Win32_NetworkManagement_Ndis", "Win32_Networking_WinSock", "Win32_UI_Shell_PropertiesSystem"] }
windows-core = "=0.62.2"
