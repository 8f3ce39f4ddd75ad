//! Field-value model and modal edit session of a terminal editor for
//! project boards: items in rows, typed fields in columns.

pub mod date;
pub mod project;
pub mod app;
pub mod sync;
pub mod keys;
pub mod commands;
