pub mod args;
pub mod backend;
pub mod diagnostics;
pub mod display;
pub mod grammar;
pub mod profile;
pub mod register;
pub mod select;
pub mod source;
pub mod store;
pub mod terminal;
pub mod workspace;
