[package]
name = "qingjian"
version = "0.1.0"
edition = "2021"
publish = false

[dependencies]
tracing = "0.1"

[dependencies.windows]
version = "0.54"
features = [
    "Win32_Foundation",
    "Win32_Media_Audio",
    "Win32_Media_Speech",
    "Win32_System_Com",
    "Win32_UI_TextServices",
]
