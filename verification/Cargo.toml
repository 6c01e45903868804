[package]
name = "workspace_server"
version = "0.1.0"
edition = "2021"
publish = false

[dependencies]
append-only-vec = "=0.1.10"
papaya = "=0.2.5"
rustc-hash = "=2.1.3"
camino = "=1.2.6"
biome_rowan = "=0.5.7"
biome_parser = "=0.5.7"
biome_js_syntax = "=0.5.7"
biome_js_parser = "=0.5.7"
biome_json_syntax = "=0.5.7"
biome_json_parser = "=0.5.7"
biome_fs = "=0.5.7"
biome_diagnostics = "=0.5.7"
biome_console = "=0.5.7"
biome_text_size = "=0.5.7"
biome_text_edit = "=0.5.7"
biome_unicode_table = "=0.5.7"
serde = { version = "1", features = ["derive"] }
