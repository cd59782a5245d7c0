[package]
name = "bgdb"
version = "0.1.0"
edition = "2021"
publish = false

[dependencies]
gimli = "*"
iced-x86 = { version = "*", default-features = false, features = ["std", "decoder", "intel"] }
libc = "*"
memmap2 = "*"
nix = { version = "*", features = ["ptrace", "process", "signal"] }
object = "*"
rustyline = "*"
