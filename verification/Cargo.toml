[package]
name = "imgchest"
version = "0.1.0"
edition = "2021"
publish = false

[dependencies]
jiff = "=0.2.38"
scraper = "=0.27.0"
reqwest = { version = "=0.13.5", default-features = false, features = ["cookies", "form", "multipart", "stream"] }
reqwest_cookie_store = "=0.10.0"
tokio = { version = "=1.53.2", features = ["full"] }
tokio-util = { version = "*", features = ["codec"] }
anyhow = "*"
argh = "*"
directories-next = "*"
opener = "*"
toml_edit = "*"
