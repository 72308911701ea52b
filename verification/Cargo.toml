[package]
name = "motd"
version = "0.1.0"
edition = "2021"
publish = false

[dependencies]
rand = "*"
iso8601-timestamp = "*"
semver = "*"
textwrap = "*"
anyhow = "*"
ratatui = "*"
crossterm = "*"
tokio = { version = "*", features = ["rt-multi-thread", "macros"] }
futures-util = "*"
bollard = "*"
sysinfo = "*"
hostname = "*"
users = "*"
local-ip-address = "*"
os_info = "*"
plist = "*"
figlet-rs = "*"
lolcrab = "*"
ansi-to-tui = "*"
ansi_term = "*"
