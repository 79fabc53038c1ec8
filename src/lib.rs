//! Formatting and colour logic of a small directory lister and file viewer.
//!
//! Every line of a listing is built here from plain values: the entry's type,
//! its mode bits, link count, owner and group, size, modification time and name.
//! The calls that only the operating system or an outside crate can answer (the
//! identity database, the local time zone, colour rules, ANSI painting) sit behind
//! small wrappers whose contracts say what holds of their results.

pub mod text;
pub mod mode;
pub mod ident;
pub mod stamp;
pub mod style;
pub mod row;
pub mod dispatch;
