[package]
name = "gst_screencapturekit"
version = "0.1.0"
edition = "2021"
publish = false

[dependencies]
gstreamer = "0.21"
gstreamer-base = "0.21"
gstreamer-video = "0.21"
glib = "0.18"
objc = "0.2"
objc-foundation = "0.1"
objc_id = "0.1"
once_cell = "1"
screencapturekit = "*"
