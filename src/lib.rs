//! Decisions of a desktop application shell: whether a debug build attaches
//! logging at startup, how startup failures end the process, and how the
//! devtools toggle command acts on a window.
pub mod devtools;
pub mod profile;
pub mod startup;

pub use devtools::{apply_action, open_devtools, DevtoolsAction};
pub use profile::BuildProfile;
pub use startup::{Startup, StartupAction, StartupError, StartupEvent, StartupPhase};
