[package]
name = "plotters_druid"
version = "0.1.0"
edition = "2021"
publish = false

[dependencies]
druid = "*"
plotters-backend = "*"
