//! The decisions that the site's request handlers make, apart from the
//! requests, database queries and pages around them.

pub mod auth;
pub mod posts;
pub mod users;
