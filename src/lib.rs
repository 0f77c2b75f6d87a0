//! Helper daemons for a caching repository proxy: a per-connection process
//! launcher, a cache sweeper and the duration syntax of their arguments.
pub mod dispatch;
pub mod duration;
pub mod stdio;
pub mod sweep;
