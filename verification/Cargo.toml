[package]
name = "cloudbbq-homie"
version = "0.1.0"
edition = "2021"
publish = false

[dependencies]
bluez-async = "=0.8.2"
cloudbbq = "=0.4.0"
color-backtrace = "=0.7.4"
eyre = "=0.6.14"
futures = "=0.3.34"
homie-device = "=0.11.0"
log = "=0.4.34"
pretty_env_logger = "=0.5.0"
rumqttc = "=0.25.1"
rustls = "=0.23.46"
rustls-native-certs = "=0.8.5"
serde = { version = "=1.0.229", features = ["derive"] }
serde_derive = "=1.0.229"
stable-eyre = "=0.2.2"
tokio = { version = "=1.54.1", features = ["macros", "rt-multi-thread", "time"] }
toml = "=1.1.8"
