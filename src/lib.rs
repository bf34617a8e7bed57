//! Verified core of a sidecar supervisor that mirrors a shared proxy
//! configuration tree into a private one and reloads the supervised proxy
//! after every mirrored change.
//!
//! The library holds every decision the supervisor makes; the binary around
//! it performs the system calls (signals, inotify, `ppoll`, file copies,
//! child processes) and hands their outcomes back as plain values.

pub mod mirror;
pub mod reload;
pub mod settings;
pub mod signals;
pub mod supervisor;
pub mod watch;

pub use mirror::{
    copy_step, create_private_conf_dirs, create_shared_conf_dirs, plan_mirror, CopyStep,
    MirrorAction, PrivateReset, PRIVATE_CONF_PATH, SHARED_CONF_PATH,
};
pub use reload::{after_mirror, after_reload, after_test, readiness_step, Readiness, ReloadAction, ReloadOutcome, Verb};
pub use settings::{default_webapp_ipv4, ConfigError, FloxyEnvironment, ProxySettings};
pub use signals::{is_termination_signal, next_iteration, record_signal, Iteration};
pub use supervisor::{dispatch, should_read_events, Dispatch};
pub use watch::{classify, Event, RelPath, Subdir, Translation, WatchTable};
