[package]
name = "lcd_i2c"
version = "0.1.0"
edition = "2021"
publish = false

[dependencies]
cortex-m = "0.6"
cortex-m-rt = "0.6"
embedded-hal = "0.2"
heapless = "0.5"
nb = "0.1"
panic-halt = "0.2"
shared-bus = "0.2"
stm32f1xx-hal = { version = "0.6", features = ["stm32f103", "rt", "stm32-usbd", "medium"] }
usb-device = "0.2"
usbd-serial = "0.1"
void = { version = "1", default-features = false }
