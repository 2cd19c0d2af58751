//! The request-independent logic of a small blogging site: user sessions,
//! flash labels, posts and their publication states, user accounts with
//! hashed passwords, and the decisions that the site's request handlers make.

pub mod config;
pub mod helpers;
pub mod models;
pub mod routes;
pub mod text;
