[package]
name = "microkernel"
version = "0.1.0"
edition = "2021"
publish = false

[dependencies]
buddy_system_allocator = "=0.13.0"
fatfs = "=0.3.6"
log = "=0.4.34"
polyhal = "=0.1.3"
spin = "=0.10.1"
virtio-drivers = "=0.13.0"
xmas-elf = "=0.10.0"
