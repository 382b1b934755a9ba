[package]
name = "space_war"
version = "0.1.0"
edition = "2021"
publish = false

[dependencies]
heapless = "=0.8.0"
cortex-m = "=0.6.7"
cortex-m-rtic = "=0.6.0-alpha.0"
cortex-m-rtic-macros = "=0.6.0-alpha.0"
rtic-syntax = "=0.5.0-alpha.0"
defmt = "=0.1.3"
defmt-rtt = "=0.1.0"
panic-probe = "=0.1.0"
embedded-graphics = "=0.6.2"
ssd1306 = "=0.4.1"
stm32f7xx-hal = { version = "=0.3.0", features = ["stm32f746", "rt"] }
