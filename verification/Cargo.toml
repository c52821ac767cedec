[package]
name = "catdex"
version = "0.1.0"
edition = "2021"
publish = false

[dependencies]
serde_json = "1"
serde = { version = "1", features = ["derive"] }
actix-web = { version = "4", default-features = false, features = ["macros"] }
actix-files = "0.6"
awmp = "*"
diesel = { version = "2", default-features = false, features = ["postgres", "r2d2"] }
handlebars = "*"
derive_more = { version = "*", features = ["display"] }
ws = "0.9"
lambda_runtime = "*"
lambda_http = "*"
rusoto_core = { version = "0.48", default-features = false, features = ["rustls"] }
rusoto_dynamodb = { version = "0.48", default-features = false, features = ["rustls"] }
tokio = { version = "1", features = ["macros", "rt-multi-thread"] }
log = "0.4"
simple_logger = "*"
simple-error = "*"
