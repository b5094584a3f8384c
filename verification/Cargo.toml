[package]
name = "igb_driver"
version = "0.1.0"
edition = "2021"
publish = false

[dependencies]
axdriver_base = "0.1"
axconfig = "=0.2.2-preview.2"
log = "0.4"
sbi-rt = "*"
