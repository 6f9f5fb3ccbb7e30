pub mod backend;
pub mod driver;
