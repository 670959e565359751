//! Linux fanotify: the flag sets, the kernel's event record format and its
//! extension records, the watch table, and the permission-response protocol,
//! each with its contract proved.
//!
//! The kernel calls themselves (creating the group, placing marks, reading
//! and writing its descriptor, resolving a descriptor's path) are made by the
//! caller; the functions here say what to hand them and what their results
//! mean.

pub mod error;
pub mod event;
pub mod flags;
pub mod info;
pub mod linux;
pub mod session;
pub mod watch;
pub mod wire;

pub use error::{FanotifyError, Result};
pub use event::{decode_events, Event, EventInfo};
pub use flags::{EventFlags, FanotifyFlags, MaskFlags};
pub use info::InfoRecord;
pub use session::{MarkOp, MarkRequest, Session};
pub use watch::WatchTable;
