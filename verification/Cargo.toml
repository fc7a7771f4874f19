[package]
name = "vm_launch"
version = "0.1.0"
edition = "2021"
publish = false

[dependencies]
anyhow = "1"
clap = { version = "4", features = ["derive"] }
ctrlc = "3"
log = "0.4"
nix = { version = "*", features = ["fs", "user"] }
smbios-lib = "*"
stderrlog = "*"
