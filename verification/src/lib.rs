//! Tools for working with love projects: project folders and `.love` packages.
//!
//! The library tells of what kind a project is and which version of love it
//! asks for in its configuration. It never touches the disk: what was found
//! there is handed in, and where more is needed the library says what.
//!
//! - [`classify`] tells a package from a project folder.
//! - [`reader`] gets the text of a file out of a folder or out of a package.
//! - [`version`] finds the version that a configuration text declares.
//! - [`project`] inspects a project with these three.
//! - [`laws`] states what holds of every inspection.

pub mod classify;
pub mod laws;
pub mod project;
pub mod reader;
pub mod text;
pub mod version;
