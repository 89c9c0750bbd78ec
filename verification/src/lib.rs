//! Picks a wallpaper of a requested resolution from a remote image catalog.
//!
//! The library holds everything that is decided between the network calls:
//! the request URLs, the reading of the catalog's answers, the draw of an
//! index and its place in the paged listing, and the name of the file that
//! the chosen image is saved under.

pub mod catalog;
pub mod decimal;
pub mod download;
pub mod error;
pub mod plan;
pub mod select;
