[package]
name = "percents"
version = "0.1.0"
edition = "2021"
publish = false

[dependencies]
egui = "0.31"
euclid = "0.22"
itertools = "0.14"
windows = { version = "0.61", features = ["Win32_Foundation", "Win32_UI_WindowsAndMessaging", "Win32_Graphics_Dwm", "Win32_Graphics_Gdi", "Win32_System_Threading"] }
