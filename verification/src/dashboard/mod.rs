pub mod data;
pub mod ui;
