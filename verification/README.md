# Lucent

A Wayland notification daemon implementing `org.freedesktop.Notifications`
(spec v1.3), with its decision logic verified by Verus.

- `src/` is the verified library:
  - `config` — the configuration type and its defaults;
  - `style` — the popup stylesheet built from the configuration;
  - `decimal` — decimal rendering of integers used by the stylesheet;
  - `notification` — notifications, popup commands and bus signals;
  - `dbus` — id allocation and the decoding of bus requests;
  - `ui` — the popup stack: display order, popup generations, queue and
    expiry timers; `State::handle_command` returns the window, timer and bus
    work that a command calls for. `ui::model` states each command's effect,
    `ui::layout` the stack offsets, `ui::laws` what holds across commands;
  - `window` — the labels of a popup and where it first appears.
- `app/` is the program around it: the session-bus server (zbus), the GTK4
  layer-shell windows and their animations, timers, channels and the
  configuration file.
- `tests/` exercises the library on concrete values.
