//! The plugins that come with the library.

pub mod browse;
pub mod filesystem;
pub mod news;
