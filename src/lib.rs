//! A GPIO pin driver over a model of the controller's register block.
pub mod bits;

pub mod registers;
pub mod gpio;
pub mod shell;
