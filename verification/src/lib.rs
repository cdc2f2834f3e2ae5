//! Session bookkeeping, transcript handling and capture control for meeting notes.
pub mod buffer;
pub mod capture;
pub mod catalog;
pub mod clock;
pub mod model;
pub mod notes;
pub mod session;
pub mod settings;
pub mod text;
