//! Registry of client executables and supervisor of the single active one.
//!
//! The crate holds the decisions only. It never touches the file system and
//! never launches anything: the host program carries out each [`Action`] that
//! an operation hands back and reports what happened as an [`Event`].

pub mod command;
pub mod config;
pub mod ident;
pub mod manager;
pub mod menu;
pub mod model;
pub mod process;
pub mod record;

pub use command::{
    client_command, fixed_command, parse_command, remove_token, select_token, Command,
};
pub use config::{Config, ConfigView};
pub use manager::PortguardManager;
pub use menu::{ClientMenu, ClientMenuView, TrayMenu};
pub use model::{Input, ManagerView, Outcome};
pub use process::{
    Action, ActionView, ClientId, ErrorView, Event, EventView, ManagerError, Pending, ProcessHandle,
    Status,
};
pub use record::{ConfigRecord, RecordView};
