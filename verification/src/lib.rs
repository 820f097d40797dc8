//! Client-side core of a terminal tool that inspects and reconfigures a
//! configurable mouse through a device-management daemon.
//!
//! The crate is free of input and output. It decodes what the daemon reports,
//! keeps a local snapshot of one device, decides which remote reads and writes
//! have to happen and in which order, drives the interactive state, and
//! describes what the screen has to show. A thin driver performs the remote
//! calls and draws the description.
//!
//! - [`action`]: the codec for what a button does.
//! - [`device`]: the snapshot of a device, and the write-then-commit protocol
//!   that changes it.
//! - [`loader`]: the walk over the daemon's objects that loads the snapshots.
//! - [`daemon`]: a model of the daemon, and what a load over it yields.
//! - [`cursor`]: a position in a list.
//! - [`app`]: the session, driven by keys and by the outcomes of remote calls.
//! - [`render`]: what the screen shows for a session.
//! - [`hid`]: raw input reports of the mouse.
//! - [`text`]: decimal notation.

pub mod action;
pub mod app;
pub mod cursor;
pub mod daemon;
pub mod device;
pub mod hid;
pub mod loader;
pub mod render;
pub mod text;
