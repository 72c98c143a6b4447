//! Backups of history archives to permanent storage.

pub mod providers;
