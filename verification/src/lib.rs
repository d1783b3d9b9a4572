pub mod text;
pub mod str_ext;
pub mod speedy_macro;
pub mod types;
pub mod web_transform;
pub mod sass;
