pub mod auth;
pub mod codec;
pub mod crypto;
pub mod database;
pub mod engine;
pub mod error;
pub mod feeds;
pub mod hardwares;
pub mod http;
pub mod jwt;
pub mod messages;
pub mod mqtt;
pub mod nodes;
pub mod response;
pub mod strings;
pub mod token;
pub mod users;
