[package]
name = "usb_echo"
version = "0.1.0"
edition = "2021"
publish = false

[dependencies]
cortex-m = { version = "=0.7.10", features = ["critical-section-single-core"] }
cortex-m-rt = "=0.7.7"
defmt = "=0.3.101"
defmt-rtt = "=0.4.2"
embassy-executor = { version = "=0.5.1", features = ["executor-thread", "defmt", "integrated-timers"] }
embassy-futures = "=0.1.2"
embassy-nrf = { version = "=0.1.0", features = ["defmt", "nrf52840", "time-driver-rtc1", "gpiote", "unstable-pac", "time"] }
embassy-time = { version = "=0.3.2", features = ["defmt", "defmt-timestamp-uptime"] }
embassy-usb = { version = "=0.1.0", features = ["defmt"] }
embedded-graphics = "=0.7.1"
epd-waveshare = "=0.5.0"
panic-probe = { version = "=0.3.2", features = ["print-defmt"] }
u8g2-fonts = "=0.2.0"
