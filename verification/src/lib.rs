pub mod cli;
pub mod crypto;
pub mod error;
pub mod handler;
pub mod input;
pub mod interactive;
pub mod operations;
pub mod sodium;
pub mod text;
pub mod uuid;
pub mod validation;
