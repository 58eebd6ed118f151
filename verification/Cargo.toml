[package]
name = "webserver"
version = "0.1.0"
edition = "2021"
publish = false

[dependencies]
ammonia = "=3.3.4"
anyhow = "=1.0.104"
comrak = { version = "=0.9.1", default-features = false }
diesel = { version = "1.4", default-features = false }
hashbrown = "=0.9.1"
r2d2_redis = "=0.14.0"
rocket = { version = "0.5", default-features = false }
serde_json = "=1.0.154"
tera = { version = "=1.20.1", default-features = false }
