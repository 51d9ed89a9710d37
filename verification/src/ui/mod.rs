//! Pure helpers for presenting the machine to a user interface. The
//! drawing itself — terminal or window — belongs to the driver around the
//! library.

pub mod game;
