[package]
name = "sqlitegis"
version = "0.1.0"
edition = "2021"
publish = false

[dependencies]
geo = "*"
geozero = { version = "*", features = ["with-wkb", "with-geo", "with-wkt", "with-geojson"] }
serde_json = "*"
thiserror = "*"
