[package]
name = "farm_plugin_react_components"
version = "0.1.0"
edition = "2021"
publish = false

[dependencies]
farmfe_core = "=2.1.0"
farmfe_macro_plugin = "=2.0.0"
farmfe_utils = "=0.1.6"
regex = "=1.13.1"
