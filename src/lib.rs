//! A keyboard-driven to-do list organised into named pages: the data model,
//! the line editor used for names, and the modal key handler that mutates
//! the document and reports when it must be written back to disk.

mod text;
pub mod model;
pub mod keys;
pub mod editor;
pub mod session;
pub mod location;
pub mod display;
