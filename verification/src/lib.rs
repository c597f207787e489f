//! Core logic of a terminal front end for yt-dlp.
pub mod app;
pub mod browser;
pub mod config;
pub mod external;
pub mod json;
pub mod paths;
pub mod preview;
pub mod text;
pub mod ui;
pub mod ytdlp;
