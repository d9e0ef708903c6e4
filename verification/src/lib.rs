//! Window configuration and event dispatch for a small widget-based GUI.
//!
//! `bgui_builder` gathers the settings of a window before it is opened;
//! `events` decides what the GUI does with each window event and which
//! widgets a mouse click activates; `geometry` splits a rectangle into the
//! two triangles it is drawn with.
pub mod bgui_builder;
pub mod events;
pub mod geometry;

pub use bgui_builder::{BGuiBuilder, BuilderView, SettingsView, WinMode, WindowSettings};
pub use events::{ElementState, GuiAction, GuiEvent, MouseButton};
