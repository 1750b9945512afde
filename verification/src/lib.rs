pub mod check;
pub mod config;
pub mod decimal;
