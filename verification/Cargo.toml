[package]
name = "nezha_runtime"
version = "0.1.0"
edition = "2021"
publish = false

[dependencies]
buddy_system_allocator = "=0.13.0"
embedded-hal = "=0.2.7"
nb = "=1.1.0"
riscv = "=0.7.0"
rustsbi = "0.3"
spin = "=0.9.9"
ufmt = "=0.2.0"
