[package]
name = "packetbox"
version = "0.1.0"
edition = "2021"
publish = false

[dependencies]
linked_list_allocator = "*"
riscv = "*"
riscv-rt = "*"
