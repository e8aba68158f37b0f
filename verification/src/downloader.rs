//! Resolving a video and fetching its audio.

pub mod acquisition;
pub mod client;
pub mod error;
pub mod facade;
pub mod filename;
pub mod headers;
pub mod json;
pub mod media_downloader;
pub mod pattern;
pub mod persona;
pub mod response;
