//! A small Hacker News browsing library: a ranked-item content client,
//! a pure text sanitizer for comment markup, and the session controller
//! that coordinates selection, comment caching and background fetches.

pub mod client;
pub mod controller;
pub mod sanitize;
