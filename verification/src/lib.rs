//! Verified core of an account switcher for the Nani desktop app.

pub mod account_map;
pub mod crypto;
pub mod dialog;
pub mod logger;
pub mod menu;
pub mod model;
pub mod nani;
pub mod paths;
pub mod settings;
pub mod snapshot;
pub mod startup;
pub mod store;
pub mod text;
pub mod tray;

pub use account_map::Accounts;
pub use model::{Account, AccountView, CurrentSnapshot, SnapshotView};
