//! Platform-neutral widget logic: values, focus order, interaction states.

pub mod focus;
pub mod layout;
pub mod model;
pub mod value;

pub use focus::FocusRing;
pub use layout::{WidgetId, ALL_WIDGETS};
pub use model::{transition, Action, KeyCode, WidgetEvent, WidgetState};
