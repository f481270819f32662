//! A watch-detect-notify loop for a rolling-release channel.
//!
//! The library holds the decision logic of a small daemon that once a day
//! refreshes a rolling-release channel, decides whether the tracked version
//! changed, and, when it did, builds exactly one notification message for the
//! newly observed version. The surrounding process performs the outside work
//! (running the version source, publishing, logging, sleeping) and feeds the
//! results back as events; everything that decides or computes is here, with
//! its contract.

pub mod check;
pub mod errors;
pub mod notify;
pub mod probe;
pub mod watch;
