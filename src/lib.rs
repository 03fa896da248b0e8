pub mod cell;
pub mod lock_word;
