//! Context-aware track selection and pause-aware playback tracking.
//!
//! The library classifies raw situational readings (time of day, calendar
//! month, a weather description with its temperature) into discrete buckets,
//! ranks candidate tracks by how many of the three context dimensions they
//! match, and models a playback session whose elapsed time stays correct
//! across pause/resume cycles.
//!
//! Everything that talks to the outside world (the tag database, the weather
//! provider, the audio device) lives outside this crate; the library works on
//! plain values and its behaviour is stated in contracts.

pub mod audio_recommender;
pub mod audio_services;
pub mod data_collector;
pub mod database;
