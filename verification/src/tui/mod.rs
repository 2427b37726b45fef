pub mod controller;
pub mod keys;
pub mod state;
pub mod ui;

pub use state::{App, FocusArea};
