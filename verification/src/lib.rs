pub mod statistics;
pub mod window;
