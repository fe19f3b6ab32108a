//! Browse a directory of terminal colour themes and splice the chosen one into
//! the terminal's configuration document.

pub mod color;
pub mod theme;
pub mod preview;
pub mod selection;
pub mod merge;
pub mod paths;
