[package]
name = "kernel"
version = "0.1.0"
edition = "2021"
publish = false

[dependencies]
acpi = { version = "=5.2.0", default-features = false }
bootloader_api = "=0.11.17"
conquer-once = { version = "=0.4.0", default-features = false }
crossbeam-queue = { version = "=0.3.14", default-features = false, features = ["alloc"] }
futures-util = { version = "=0.3.34", default-features = false, features = ["alloc"] }
lazy_static = { version = "=1.5.1", features = ["spin_no_std"] }
noto-sans-mono-bitmap = { version = "=0.3.2", default-features = false, features = ["regular", "size_24", "unicode-basic-latin", "unicode-specials"] }
pc-keyboard = "=0.7.0"
spin = "=0.9.9"
x86_64 = { version = "=0.14.13", default-features = false, features = ["instructions"] }
