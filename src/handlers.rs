pub mod health;
pub mod user;
