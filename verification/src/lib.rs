pub mod text;
pub mod syntax;
pub mod lexer;
pub mod parser;
pub mod location;
pub mod message;
pub mod fix;
pub mod rule_table;
pub mod lints;
pub mod config;
pub mod check;
pub mod api;
pub mod driver;
