//! Host library for hot-reloading an application module while the process
//! keeps running.
//!
//! The host owns the window and the event loop, loads the application as a
//! separate module through a fixed four-entry-point contract, watches the
//! build output directory for changes, and atomically swaps the running
//! instance for a freshly built one.  This crate holds the verified decision
//! core: the symbol contract ([`abi`]), the symbol-resolution rule
//! ([`loader`]), the change-coalescing watcher ([`watcher`]), and the host
//! state machine that sequences every load, create, destroy and unload
//! ([`host`]).  The platform work itself — mapping a shared library,
//! pumping window events, copying the build artifact — is performed by an
//! unverified runner that follows the actions this core prescribes.

pub mod abi;
pub mod host;
pub mod loader;
pub mod watcher;
