//! Session engine of an interactive console for tabular queries.

pub mod app;
pub mod command;
pub mod editor;
pub mod engine;
pub mod history;
pub mod results;
pub mod scene;
pub mod table;
pub mod text;
pub mod viewport;
