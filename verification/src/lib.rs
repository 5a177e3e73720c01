//! A small terminal text editor: the buffer of lines, the cursor and the
//! scrolling logic, with their contracts.
pub mod editor;
