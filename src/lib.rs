//! Decisions of a window watcher that asks a game-performance service to
//! favour the processes owning marked X11 windows.
//!
//! Talking to the display server and to the session bus happens outside this
//! library; what is decided on the values they hand back is stated and proved
//! here.

pub mod errors;
pub mod pid;
pub mod dispatch;
pub mod watch;
pub mod gamemode;
