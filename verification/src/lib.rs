//! A clipboard-change watcher, as a verified state machine.
//!
//! A [`ClipboardWatcher`] is the control handle of a watcher: it owns the
//! on/off switch and the sending end of the broadcast channel on which new
//! clips are published. A [`ChangeLoop`] is the worker that belongs to a
//! handle: it decides, for every answer of a clipboard backend, what is
//! loaded next and what is published. The loop performs no clipboard access
//! and never waits: whoever drives it loads the content and awaits the
//! notifications that it asks for.
//!
//! What a loop does is stated over [`LoopModel`](model::LoopModel), and the
//! module [`laws`] proves what holds of every run.
pub mod cache;
pub mod change_loop;
pub mod channel;
pub mod clip;
pub mod error;
pub mod flag;
pub mod laws;
pub mod model;
pub mod options;
pub mod watcher;

pub use crate::cache::DedupCache;
pub use crate::change_loop::ChangeLoop;
pub use crate::channel::CLIP_CHANNEL_CAPACITY;
pub use crate::clip::ClipEntry;
pub use crate::clip::ClipboardKind;
pub use crate::clip::ClipboardWatcherState;
pub use crate::error::BackendError;
pub use crate::error::Error;
pub use crate::flag::FlagReader;
pub use crate::flag::WatchFlag;
pub use crate::model::Action;
pub use crate::model::Phase;
pub use crate::options::ClipboardWatcherOptions;
pub use crate::watcher::ClipboardWatcher;
