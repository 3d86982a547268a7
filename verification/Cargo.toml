[package]
name = "esp32s3_cam_qr"
version = "0.1.0"
edition = "2021"
publish = false

[dependencies]
rxing = { version = "=0.9.3", default-features = false, features = ["decoders", "qrcode", "encoding_rs"] }
embedded-graphics = "=0.8.2"
log = "=0.4.35"
mipidsi = "=0.10.0"
esp-idf-hal = "0.45"
esp-idf-sys = "0.36"
esp-idf-svc = "0.51"
esp32-nimble = "0.11"
