//! The desktop player's handling of files and URLs that the operating system
//! asks it to open.

pub mod open_files;
