pub mod csv;
pub mod db;
pub mod failure;
pub mod find;
pub mod meta;
pub mod number;
pub mod order;
pub mod pane;
pub mod pattern;
pub mod quote;
pub mod repl;
pub mod report;
pub mod rows;
pub mod text;
pub mod ui;
