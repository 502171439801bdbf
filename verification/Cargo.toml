[package]
name = "theseus_kernel"
version = "0.1.0"
edition = "2021"
publish = false

[dependencies]
rangemap = "=1.8.0"
rustc-demangle = "=0.1.28"
xmas-elf = "=0.10.0"
multiboot2 = "=0.28.0"
qp-trie = "=0.8.2"
lz4_flex = "=0.14.0"
cpio_reader = "=0.1.2"
zerocopy = "0.8"
