//! Event routing for a multi-window application shell: composite ids for
//! menus, tray icons and shortcuts, the per-event dispatch state machine,
//! and the start-up decisions on the project descriptor and directories.
pub mod codec;
pub mod dispatch;
pub mod environment;
pub mod event_handler;
