//! Verified core of the Codex Pulse taskbar widget: its theme, events, context
//! menu, geometry, colours, texts, paint layout and window state machine.
//! Everything that talks to Win32 lives in the surrounding application.

pub mod theme;
pub mod geometry;
pub mod color;
pub mod text;
pub mod clock;
pub mod event;
pub mod window;
pub mod window_laws;
pub mod paint;
