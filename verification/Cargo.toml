[package]
name = "tokyo"
version = "0.1.0"
edition = "2021"
publish = false

[dependencies]
bitvec = "=1.1.1"
x86_64 = { version = "=0.15.5", default-features = false, features = ["instructions"] }
bootloader_api = "=0.11.17"
pic8259 = "=0.11.0"
uart_16550 = "=0.8.1"
spin = "=0.12.3"
linked_list_allocator = "=0.10.6"
