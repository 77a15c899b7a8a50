//! Data exchanged with the speech engines.
use vstd::prelude::*;

verus! {

/// A voice style of a speaker, with the id that synthesis requests use.
#[derive(Debug, Clone)]
pub struct Style {
    pub name: String,
    pub id: u32,
}

/// A speaker offered by an engine.
#[derive(Debug, Clone)]
pub struct Speaker {
    pub name: String,
    pub speaker_uuid: String,
    pub styles: Vec<Style>,
}

/// A word of the VOICEVOX user dictionary.
#[derive(Debug, Clone)]
pub struct UserDictWord {
    pub surface: String,
    pub pronunciation: String,
    pub accent_type: u32,
}

} // verus!
