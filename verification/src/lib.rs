//! Decision logic of a wallpaper library: which files of a directory walk are
//! listed as images, how a freshly fetched tree is flattened into the library
//! directory, what progress is reported on the way, and in which order the
//! stages of one provisioning run follow each other.
//!
//! The crate touches neither the file system nor the network. A host walks
//! directories, clones the remote collection and copies files; it hands what
//! it saw to the functions here as plain values and carries out what they
//! answer.

pub mod progress;
pub mod library;
pub mod staging;
pub mod migration;
pub mod provision;
pub mod background;
