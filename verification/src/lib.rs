//! Verified core of a bridge between a single-threaded guest script
//! interpreter and a multi-threaded host.
//!
//! The library takes the decisions of the bridge on plain values and leaves
//! every touch of the interpreter and of the host to its caller:
//!
//! - [`entry`]: the exclusive entry token of the interpreter, and the phase
//!   of a callback scope that may block once for a host callback;
//! - [`client`]: the client handle, a capability that is revoked for good
//!   when its callback scope returns;
//! - [`reply`] and [`marshal`]: host replies, and the guest values that they
//!   marshal to;
//! - [`deferred`]: the handle on a guest promise, settled or released
//!   exactly once, after a check that the registration still lives;
//! - [`remote`]: serialising the arguments of a remote call, and settling
//!   its deferred result from what one shard or all shards answer;
//! - [`background`]: blocking for a host callback, and starting guest work
//!   in the background;
//! - [`globals`]: the checks behind the registration functions, the
//!   configuration, the promise constructor and the remote task;
//! - [`guest`]: what is read of guest values where they come in;
//! - [`text`]: UTF-8 decoding and message strings.

pub mod background;
pub mod client;
pub mod deferred;
pub mod entry;
pub mod globals;
pub mod guest;
pub mod marshal;
pub mod remote;
pub mod reply;
pub mod text;
