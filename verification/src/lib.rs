//! Core of a local live-preview engine for a single markdown document.
//!
//! The library holds the logic that is worth stating precisely: how raw
//! filesystem activity is coalesced into change batches (`debounce`), which
//! batches concern the served document (`filter`), how the shared render
//! cache publishes whole pages and hands out consistent snapshots (`cache`),
//! how a source text becomes a rendered page or an explicit error panel
//! (`render`, `page`, `errors`), and how one client connection turns the
//! change marker into an ordered stream of update events (`sync`).
//!
//! Everything asynchronous — the HTTP server, the OS watch registration,
//! timers — lives outside the library and drives these functions with plain
//! values.

pub mod cache;
pub mod debounce;
pub mod errors;
pub mod filter;
pub mod page;
pub mod render;
pub mod sync;
