[package]
name = "stremio_shell"
version = "0.1.0"
edition = "2021"
publish = false

[dependencies]
base64 = "0.22"
dirs = "*"
discord-rich-presence = "1"
flume = "0.11"
libmpv2 = "*"
libmpv2-sys = "*"
native-windows-derive = "1"
native-windows-gui = "1"
open = "5"
rand = "0.8"
serde_json = "1"
url = "2"
urlencoding = "2"
winapi = { version = "0.3", features = ["winbase", "winuser", "wingdi", "winerror", "minwindef", "windef", "winnt"] }
winreg = "*"
