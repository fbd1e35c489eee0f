use vstd::prelude::*;

pub mod addresses;
pub mod config;
pub mod config_core;
pub mod credentials;
pub mod draft;
pub mod draft_text;
pub mod json;
pub mod jsonc;
pub mod laboratory;
pub mod lyrics;
pub mod merge;
pub mod normalize;
pub mod overlay;
pub mod placement;
pub mod pointer;
pub mod player;
pub mod protocol;
pub mod records;
pub mod runtime;
pub mod settings;
pub mod shortcuts;
pub mod sha1;
pub mod surfaces;
pub mod text;
pub mod themes;
pub mod web;
pub mod window_layout;

verus! {

} // verus!
