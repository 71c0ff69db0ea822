//! A small password generator: it turns loosely typed length and mode tokens
//! into a generation policy and draws a password from the selected alphabets.
pub mod text;
pub mod random;
pub mod numeral;
pub mod length;
pub mod mode;
pub mod classes;
pub mod password;
pub mod settings;
