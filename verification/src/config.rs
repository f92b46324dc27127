//! Persisted user configuration.
//!
//! The configuration remembers the directory the file browser shows. The
//! library holds the value and its validity rule; reading it from and
//! writing it to disk, and picking a platform default directory, are the
//! application's I/O edge.

use vstd::prelude::*;

verus! {

/// User settings kept between sessions.
pub struct AppConfig {
    /// Directory the file browser opens, as an absolute path.
    pub file_path: String,
}

impl AppConfig {
    /// Whether the configuration may be saved: the path is not empty.
    /// Whether the path also exists on disk is checked by the caller at the
    /// I/O edge before use.
    pub fn is_valid(&self) -> (r: bool)
        ensures
            r == (self.file_path@.len() > 0),
    {
        !self.file_path.as_str().is_empty()
    }
}

impl Default for AppConfig {
    /// The starting configuration: no path yet. The application replaces it
    /// with a platform documents directory at startup.
    fn default() -> (c: Self)
        ensures
            c.file_path@.len() == 0,
    {
        AppConfig { file_path: String::new() }
    }
}

} // verus!
