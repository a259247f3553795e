pub mod screen;
pub mod screens;
pub mod widgets;
