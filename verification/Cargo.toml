[package]
name = "ifconfig"
version = "0.1.0"
edition = "2021"
publish = false

[dependencies]
pnetlink = "*"
socket2 = "0.3"
widestring = "0.4"
winapi = { version = "0.3", features = ["iphlpapi", "iptypes", "winerror", "ws2def", "ws2ipdef", "minwindef"] }
