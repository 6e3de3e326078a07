[package]
name = "jvmti_abi"
version = "0.1.0"
edition = "2021"
publish = false

[dependencies]
jni-sys = "0.3"
proc-macro2 = "1"
quote = "1"
syn = "2"
