[package]
name = "microvmm"
version = "0.1.0"
edition = "2021"
publish = false

[dependencies]
anyhow = "1"
clap = { version = "4", features = ["derive"] }
ctrlc = "3"
kvm-bindings = { version = "*", features = ["fam-wrappers"] }
kvm-ioctls = "*"
libc = "0.2"
linux-loader = { version = "*", features = ["elf", "bzimage"] }
vm-memory = { version = "*", features = ["backend-mmap"] }
vm-superio = "*"
vmm-sys-util = "*"
