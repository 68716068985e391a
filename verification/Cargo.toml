[package]
name = "nacl"
version = "0.1.0"
edition = "2021"
publish = false

[dependencies]
crossbeam-epoch = "=0.9.21"
raw-cpuid = "=11.6.0"
x86_64 = { version = "=0.15.5", default-features = false, features = ["instructions"] }
uart_16550 = "=0.8.1"
pic8259 = "=0.11.0"
acpi = "=4.1.1"
log = "=0.4.34"
futures-util = "=0.3.34"
