//! The readings of a system monitor applet: what to refresh, how to read it, how to show it.
pub mod command;
pub mod config;
pub mod data;
pub mod gpu;
pub mod laws;
pub mod network;
pub mod public_ip;
pub mod reading;
pub mod refresh;
pub mod refresh_laws;
pub mod render;
pub mod retry;
pub mod sensors;
pub mod show_laws;
pub mod source_laws;
pub mod system;
pub mod template;
pub mod text;
pub mod text_laws;
pub mod whole;
