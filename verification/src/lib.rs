//! The core of a terminal audio player that fetches its tracks from a video
//! platform.
//!
//! The library decides and the caller performs: the network, the files, the
//! terminal and the audio device are the caller's. The library words the
//! request that resolves a video, reads the answer, names the file, and says
//! step by step what a download and a whole acquisition are to do next
//! ([`downloader`]). It also holds the rules of the player itself: what a key
//! does ([`events`]), how playback moves through the playlist
//! ([`playback`]), and the small state values of the control bar
//! ([`controls`]).

pub mod controls;
pub mod downloader;
pub mod events;
pub mod library;
pub mod playback;
pub mod signal;
pub mod string_specs;
pub mod text;
pub mod text_input;
