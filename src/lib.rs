//! Lifecycle controller for a desktop shell that supervises one background
//! service process and is driven from a system tray.
//!
//! The host toolkit delivers events; the controller answers each one with the
//! commands the host must carry out, in order. All decisions live here; the
//! host only performs them.

pub mod window;
pub mod supervisor;
pub mod tray;
pub mod update;
pub mod runtime;
pub mod lifecycle;

pub use window::WindowState;
pub use supervisor::{ProcessSlot, ServiceSupervisor};
pub use tray::{create_tray_menu, menu_action, MenuEntry, TrayAction};
pub use update::{update_check_result, update_notice, UpdateOutcome};
pub use runtime::{Command, Event, Phase, Runtime, EXIT_OK, GRACE_PERIOD_MS};
