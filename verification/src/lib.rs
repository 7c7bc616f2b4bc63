//! Planning of Windows shortcut (`.lnk`) files.
//!
//! The crate decides which shortcut a command line asks for and where it goes:
//! the known folder to look up, the path of the link file, the path of the
//! target and the icon the link carries. It touches neither the file system
//! nor the shell; a caller resolves folders, then writes the shortcut that the
//! plan describes.

pub mod command;
pub mod model;
pub mod paths;
pub mod plan;
pub mod wide;
