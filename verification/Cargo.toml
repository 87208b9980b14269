[package]
name = "pci_scan"
version = "0.1.0"
edition = "2021"
publish = false

[dependencies]
lazy_static = "=1.5.1"
spin = "=0.12.3"
uart_16550 = "=0.8.1"
x86_64 = "=0.14.13"
