//! A clipboard history manager's verified core: a bounded, adjacent-deduplicated
//! history of clipboard snapshots, its persistence encoding, and the state
//! machine that turns clipboard, hotkey and selection events into state changes
//! and side-effect commands. The surrounding process (clipboard polling, global
//! hotkey registration, keystroke injection, the window) lives outside this
//! library and only exchanges plain values with it.

pub mod autostart;
pub mod codec;
pub mod history;
pub mod laws;
pub mod state;
pub mod text;
