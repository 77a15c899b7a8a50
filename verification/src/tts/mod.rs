pub mod types;
pub mod voicevox;
pub mod voiceger;
