[package]
name = "audio_tldr"
version = "0.1.0"
edition = "2021"
publish = false

[dependencies]
uuid = { version = "=1.27.0", features = ["v4"] }
teloxide = { version = "=0.12.2", default-features = false, features = ["rustls", "ctrlc_handler"] }
async-openai = "=0.14.3"
tokio = { version = "1", features = ["macros", "rt-multi-thread", "fs"] }
log = "0.4"
pretty_env_logger = "0.5"
dotenv = "0.15"
takecell = "=0.1.1"
