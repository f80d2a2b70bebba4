pub mod audit;
pub mod base;
pub mod compat;
pub mod config;
pub mod connexion;
pub mod retry;
pub mod migrations;
