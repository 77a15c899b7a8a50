pub mod desktop_capture;
pub mod url_player;
