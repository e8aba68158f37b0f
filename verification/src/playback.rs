//! Playback: what the player does with its playlist.

pub mod service;
