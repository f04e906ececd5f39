//! Serial-port terminal logic: hex encoding of payloads, and the state
//! machines behind the terminal front-ends.
pub mod text;
pub mod hex;
pub mod hex_utils;
pub mod port_io;
pub mod claude_com;
pub mod claude_com2;
pub mod com_term;
pub mod com_gpt;
pub mod com_gemini;
pub mod app;
pub mod cli_com;
pub mod pages_ru;
pub mod pages_uk;
