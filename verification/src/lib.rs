//! Detection and re-embedding pipeline for short-video links in chat messages.
//!
//! The library holds the verified logic of the bot: recognizing the two link
//! forms inside free-form message text, resolving a redirect target to a video
//! id, validating the metadata envelope returned by the feed API, and
//! composing the reply that carries the video and its embed. All network and
//! chat-platform I/O stays outside, in the surrounding application, which
//! hands this library plain values and takes plain values back.

pub mod matcher;
pub mod pipeline;
pub mod tiktok;
