[package]
name = "audio_latency"
version = "0.1.0"
edition = "2021"
publish = false

[dependencies]
ntapi = "0.4"
windows = { version = "0.58", features = ["Win32_Foundation", "Win32_Media_Audio", "Win32_Security", "Win32_System_Com", "Win32_System_Com_StructuredStorage", "Win32_System_Diagnostics_Debug", "Win32_System_Kernel", "Win32_System_SystemInformation", "Win32_System_Threading", "Win32_System_Variant", "Win32_UI_Shell_PropertiesSystem"] }
