[package]
name = "sdmmc_host"
version = "0.1.0"
edition = "2021"
publish = false

[dependencies]
embassy-executor = "*"
embassy-futures = "*"
embassy-sync = "*"
embassy-time = "*"
embedded-sdmmc = "*"
esp-bootloader-esp-idf = "*"
esp-hal = "*"
esp-hal-embassy = "*"
esp-println = "*"
esp32 = "*"
log = "*"
sdio-host = "*"
