//! Page logic of a terminal music player: list navigation, source
//! caches, search and filtering, the decisions the pages and the main
//! loop make on each key press, click and finished load, and the
//! messages and fallbacks of playback.
pub mod model;
pub mod clock;
pub mod input;
pub mod text;
pub mod listnav;
pub mod nav;
pub mod cache;
pub mod leaderboard;
pub mod playlists;
pub mod settings;
pub mod main_page;
pub mod layout;
pub mod favorites;
pub mod search;
pub mod history;
pub mod control;
pub mod local;
pub mod actions;
pub mod sequence;
