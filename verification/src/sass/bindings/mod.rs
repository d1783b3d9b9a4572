pub mod context;
pub mod options;
