[package]
name = "embedded_services"
version = "0.1.0"
edition = "2021"
publish = false

[dependencies]
heapless = "=0.8.0"
hash32 = "=0.3.1"
embassy-sync = "=0.6.2"
embassy-futures = "=0.1.2"
embassy-time = "=0.3.2"
embedded-hal-async = "=1.0.0"
embedded-sensors-hal-async = "=0.2.0"
embedded-fans-async = "=0.1.0"
