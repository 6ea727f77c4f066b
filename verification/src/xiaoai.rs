//! The raw endpoint shapes of the xiaoai service.
pub mod conversation;
