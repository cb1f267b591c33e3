//! Two-way synchronisation of two reactive signals.
//!
//! Two signals are linked by up to two observers, one per direction. An
//! observer reads its source, transforms the value and writes it into the
//! other signal, but only where that changes the value there, and never
//! while the other observer of the link is running: this is what keeps a
//! two-way link from feeding back into itself.
//!
//! The signals and the `watch` primitive belong to Leptos. What this crate
//! decides (which observers exist, what an observer writes, what the disposer
//! stops) is verified; [`model`] states how a linked pair behaves on Leptos,
//! and [`laws`] proves what follows.

pub mod direction;
pub mod laws;
pub mod model;
pub mod options;
pub mod relay;
pub mod signal;
pub mod sync;

pub use direction::SyncDirection;
pub use options::{clone_value, SyncSignalOptions, SyncSignalOptionsView};
pub use relay::pending_write;
pub use signal::{overwrite_with, UseRwSignal};
pub use sync::{establish, sync_signal, sync_signal_with_options, Disposer};
