pub mod posts;
pub mod users;
