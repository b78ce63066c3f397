[package]
name = "commandlm"
version = "1.0.0"
edition = "2021"
publish = false

[dependencies]
anyhow = "=1.0.104"
async-openai = { version = "=0.42.1", features = ["chat-completion"] }
atty = "=0.2.14"
clap = { version = "=4.6.7", features = ["derive"] }
console = "=0.16.6"
dialoguer = "=0.12.0"
directories = "=6.0.0"
indicatif = "=0.18.6"
tokio = { version = "=1.53.2", features = ["macros", "rt-multi-thread"] }
