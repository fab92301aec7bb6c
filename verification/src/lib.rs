//! Decides, for the files of a photo library, which of them are JPEG images
//! and to which modification time each has to be set: the capture time that
//! the image's EXIF data records as `DateTimeOriginal`.
//!
//! The crate reads no directory and writes no file. A caller hands it file
//! names and file contents and carries out what it answers.

pub mod capture;
pub mod config;
pub mod decimal;
pub mod exif;
pub mod filter;
pub mod handle;
pub mod laws;
pub mod pattern;
pub mod report;
pub mod stamp;
pub mod walk;
