pub mod blog;
pub mod cache;
pub mod channel;
pub mod session;
