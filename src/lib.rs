//! Engine of a virtualized, bidirectionally scrolling feed: a capped item
//! buffer, the window of rendered indices, scroll physics, the scroll lock
//! and the infinite-load state machine, plus the path checks of the local
//! asset protocol.
pub mod buffer;
pub mod items;
pub mod window;
pub mod physics;
pub mod lock;
pub mod controller;
pub mod polling;
pub mod protocol;
pub mod text;
