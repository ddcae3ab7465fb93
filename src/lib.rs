pub mod token;
pub mod ast;
pub mod copy;
pub mod session;
pub mod error;
pub mod nodes;
pub mod engine;
pub mod expr;
pub mod atom;
pub mod params;
pub mod args;
pub mod target;
pub mod stmt;
pub mod imports;
pub mod compound;
pub mod entry;
pub mod fragment;
pub mod laws;
