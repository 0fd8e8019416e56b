//! A two-pane modal text editor paired with an edit-triggered machine
//! translation pipeline: a vim-style key interpreter over a terminal text
//! area, a debounced translation scheduler, and an incremental fuzzy-search
//! language picker.

pub mod api;
pub mod app;
pub mod keys;
pub mod languages;
pub mod vim;
pub mod text;
pub mod textarea;
