[package]
name = "fixed_loader"
version = "0.1.0"
edition = "2021"
publish = false

[dependencies]
elf_loader = "=0.13.0"
libc = "=0.2.191"
rlsf = "=0.2.3"
