[package]
name = "raw_processor"
version = "0.1.0"
edition = "2021"
publish = false

[dependencies]
vulkano = "0.35"
jni = "0.21"
log = "0.4"
android_logger = "*"
