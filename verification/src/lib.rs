//! LocalForge core library: hardware-aware backend selection, llama.cpp build
//! planning, model fit scoring, KV-cache sizing, chat sessions, API request
//! handling and the setup wizard's navigation logic.

pub mod error;
pub mod models;
pub mod text;
pub mod hardware;
pub mod config;
pub mod compute;
pub mod inference;
pub mod server;
pub mod tui;
pub mod build;
pub mod app;
