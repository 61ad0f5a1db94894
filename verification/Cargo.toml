[package]
name = "amanuensis"
version = "1.0.3"
edition = "2021"
publish = false

[dependencies]
regex = "=1.13.1"
sysinfo = { version = "=0.37.2", default-features = false, features = ["system"] }
serde = { version = "1", features = ["derive"] }
serde_json = "1"
ureq = "=2.12.1"
hound = "=3.5.1"
arboard = { version = "3", default-features = false }
enigo = "*"
windows-sys = { version = "=0.61.2", features = [
    "Win32_Foundation",
    "Win32_Graphics_Gdi",
    "Win32_Security",
    "Win32_Storage_FileSystem",
    "Win32_System_Console",
    "Win32_System_LibraryLoader",
    "Win32_System_Registry",
    "Win32_System_Threading",
    "Win32_System_SystemServices",
    "Win32_UI_Controls",
    "Win32_UI_HiDpi",
    "Win32_UI_Input_KeyboardAndMouse",
    "Win32_UI_Shell",
    "Win32_UI_WindowsAndMessaging",
] }
