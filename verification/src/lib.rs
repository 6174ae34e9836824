pub mod app_error;
pub mod article;
pub mod auth;
pub mod authz;
pub mod comment;
pub mod config;
pub mod errors;
pub mod identifiers;
pub mod listing;
pub mod pagination;
pub mod problem;
pub mod profile;
pub mod security;
pub mod services;
pub mod tags;
pub mod text;
pub mod time;
pub mod use_cases;
pub mod user;
