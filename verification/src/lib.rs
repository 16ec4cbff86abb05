//! Active-window reporting for a multi-monitor compositor.
//!
//! The library turns point-in-time snapshots of a compositor's monitors,
//! workspaces and clients into the text a status bar consumes: the title of
//! the active window on one monitor, or one JSON array line covering every
//! monitor. It performs no I/O; callers fetch the snapshots, hand them in
//! and write the returned line.

pub mod model;
pub mod search;
pub mod resolve;
pub mod report;
pub mod printer;
pub mod startup;
pub mod listener;
pub mod laws;
