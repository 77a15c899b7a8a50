pub mod text;
pub mod app;
pub mod config;
pub mod validation;
pub mod launch;
pub mod tts;
pub mod ui;
pub mod pactl;
pub mod audio;
pub mod media;
pub mod osc;
