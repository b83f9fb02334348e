[package]
name = "raymarcher"
version = "0.1.0"
edition = "2021"
publish = false

[dependencies]
ecs_rust = "*"
env_logger = "*"
glm = "*"
log = "*"
num-traits = "*"
sdl2 = "*"
