//! Model of a directory-to-cloud upload agent: a rotating, size- and
//! count-bounded log sink, a debounced create-event watcher, an upload
//! dispatcher, and a service-control supervisor. The decisions of each
//! component are verified here; reading the clock, the filesystem and the
//! network stays with the callers.

pub mod config;
pub mod debounce;
pub mod dispatch;
pub mod logfmt;
pub mod rotation;
pub mod supervisor;
