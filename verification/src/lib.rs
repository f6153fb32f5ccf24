//! Dynamically loaded request handlers and the prefix router that serves them.

pub mod abi;
pub mod audit;
pub mod cgi;
pub mod config;
pub mod dynamic;
pub mod engine;
pub mod error;
pub mod ext;
pub mod http;
pub mod reload;
pub mod seqs;
