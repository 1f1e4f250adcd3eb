//! Verified decision logic of the Stremio desktop shell.
pub mod app;
pub mod build_info;
pub mod constants;
pub mod discord;
pub mod display;
pub mod encoding;
pub mod external_player;
pub mod ipc;
pub mod json;
pub mod messages;
pub mod mpv_options;
pub mod open_media;
pub mod outside;
pub mod player;
pub mod subtitles;
pub mod text;
pub mod updater;
pub mod urls;
pub mod video_output;
pub mod video_ready;
pub mod web_requests;
pub mod window;
