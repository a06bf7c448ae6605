//! Core of a read-only catalog of named mountains: validated search
//! conditions built from raw request parameters, and their compilation
//! into storage-engine-neutral filters and query options.

pub mod boxgrammar;
pub mod command;
pub mod flow;
pub mod model;
pub mod mountain;
pub mod search;
pub mod surrounding;
pub mod text;
pub mod webmodel;

