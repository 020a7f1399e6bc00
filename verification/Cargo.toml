[package]
name = "ktd2026_led_driver"
version = "0.1.0"
edition = "2021"
publish = false

[dependencies]
embedded-hal = "0.2"
linux-embedded-hal = "0.3"
