//! Core of a minimal image browser. A paste event either names a
//! directory, whose image files become a path-backed collection, or
//! carries an image, which accumulates in a memory-backed collection; the
//! browser owns at most one such source at a time and steers it with
//! wrapping navigation and a per-image zoom. Reading directories, decoding
//! files, the clipboard and the screen are collaborators of the caller;
//! this crate only decides and bookkeeps, and every function carries a
//! contract for it.

pub mod image_application;
pub mod image_clips_domains;
pub mod image_pathes_domain;
pub mod image_source;
pub mod types;
