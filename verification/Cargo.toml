[package]
name = "spherical_wrist"
version = "0.1.0"
edition = "2021"
publish = false

[dependencies]
rs-opw-kinematics = { version = "=2.0.3", default-features = false, features = ["collisions", "stroke_planning"] }
parry3d = "0.26"
glam = "=0.30.10"
pyo3 = "=0.30.1"
rs-read-trimesh = { version = "=2.0.10", default-features = false, features = ["use-parry-26"] }
