//! A layout-aware typing tutor engine: keyboard layouts with their layers,
//! the key locator that tells which key (and which modifier) produces a
//! character, the reading cursor over a story, the text window shown
//! around it, and the session that ties them to key presses.

pub mod keyboard;
pub mod layout;
pub mod session;
pub mod story;
pub mod window;
