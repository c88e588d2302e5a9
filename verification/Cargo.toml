[package]
name = "driver_trip_reward"
version = "0.1.0"
edition = "2021"
publish = false
