//! Small helpers: display width, time labels, names of temporary files.

pub mod laws;
pub mod time;
pub mod tmpfile;
pub mod width;
