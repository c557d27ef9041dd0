//! Per-application audio session control: the decisions behind enumerating the
//! audio sessions of a machine, resolving each owning process's executable path,
//! and owning the audio subsystem connection.
//!
//! The platform calls themselves are made by the caller; this crate tells the
//! caller what to do next and turns what came back into checked results.
pub mod error;
pub mod lifecycle;
pub mod path;
pub mod enumeration;

pub use error::{OsError, E_UNEXPECTED};
pub use lifecycle::WinMix;
pub use path::{path_from_query, path_from_units, trimmed_len, PathQuery};
pub use enumeration::{Action, Enumeration, EnumerationView, Event, Position, Session, Stage};


