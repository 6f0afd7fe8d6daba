[package]
name = "pf_widgets"
version = "0.1.0"
edition = "2021"
publish = false

[dependencies]
yew = "=0.23.0"
yew-hooks = "=0.6.4"
popper-rs = { version = "=0.5.0", features = ["yew"] }
wasm-bindgen = "=0.2.129"
web-sys = { version = "=0.3.106", features = ["Element", "Event", "EventTarget", "HtmlElement", "Node"] }
web-tools = { version = "=0.4.0", features = ["yew"] }
strum = "=0.28.0"
strum_macros = "=0.28.0"
