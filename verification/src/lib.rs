//! Session logic for reverse tethering an Android device over `adb`: the adb
//! command plans and their outcomes, the session's relay ownership and port
//! policy, and the desktop front-end's error and state reporting.

pub mod text;
pub mod devices;
pub mod command_error;
pub mod controller_error;
pub mod adb_client;
pub mod adb_task;
pub mod relay;
pub mod session;
pub mod desktop;
pub mod crash_watch;
pub mod laws;
