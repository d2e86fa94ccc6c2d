# codex_pulse

The verified core of the Codex Pulse taskbar widget for Windows.

`src/` is a Verus library:

- `theme`, `event`: the widget's theme, the events it sends, and its context menu.
- `geometry`: rectangles, the nearest taskbar, and where the widget sits on it.
- `color`: GDI colours, the taskbar-dependent palette and background.
- `text`: decimal, percentage and countdown texts, UTF-16 buffers.
- `clock`: RFC 3339 reset times (through chrono) and the system clock.
- `paint`: the complete layout of one painted frame.
- `window`, `window_laws`: the window procedure as a state machine shared with
  the controller, and the properties proved of it.

`app/` is the Win32 host: the window thread, the controller, painting and menu
calls. It performs what the library decides, and it does the floating-point
DPI scaling and percentage rounding.
