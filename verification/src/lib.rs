pub mod text;
pub mod auth;
pub mod config;
pub mod database;
pub mod middlewares;
pub mod observability;
pub mod routes;
pub mod users;
