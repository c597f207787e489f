//! Everything that talks about yt-dlp: options, progress lines, metadata.
pub mod download;
pub mod fetch;
pub mod models;
pub mod parser;
