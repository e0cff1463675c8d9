[package]
name = "pixelflux"
version = "0.1.0"
edition = "2021"
publish = false

[dependencies]
ffmpeg-sys-next = "*"
gbm = "*"
libc = "0.2"
thiserror = "2"
smithay = { version = "0.7", default-features = false, features = ["backend_drm", "backend_egl", "backend_gbm", "renderer_gl", "wayland_frontend", "use_system_lib"] }
