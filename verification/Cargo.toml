[package]
name = "rv_csr_test"
version = "0.1.0"
edition = "2021"
publish = false

[dependencies]
array-init = "2.1.0"
blake3 = { version = "1.8.7", default-features = false, features = ["pure"] }
embedded-hal = "0.2.7"
lazy_static = "1.5.1"
log = "0.4.34"
nb = "1.1.0"
riscv = "0.10.1"
sbi-rt = "0.0.4"
uart8250 = "0.6.0"
uart_xilinx = "0.2.0"
