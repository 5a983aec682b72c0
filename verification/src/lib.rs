pub mod text;
pub mod ytdl;
pub mod engine;
pub mod run;
pub mod config;
pub mod ui;
pub mod ffmpeg;
pub mod search;
