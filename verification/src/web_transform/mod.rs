pub mod ast;
pub mod visit;
pub mod clear_mark;
pub mod babel_import;
pub mod remove_call;
pub mod remove_effect;
pub mod react;
pub mod proxy;
pub mod parser;
pub mod scanner;
pub mod swc_module;
