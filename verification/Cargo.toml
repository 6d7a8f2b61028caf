[package]
name = "web_plot_digitizer"
version = "0.1.0"
edition = "2021"
publish = false

[dependencies]
serde_json = "=1.0.151"
tar = "=0.4.46"
