[package]
name = "looper_audio"
version = "0.1.0"
edition = "2021"
publish = false

[dependencies]
rtrb = "=0.4.0"
cpal = "=0.18.2"
symphonia = "=0.5.5"
rubato = "=5.0.1"
stratum-dsp = "=1.0.0"
