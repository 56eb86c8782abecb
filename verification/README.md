# windowing

The window back end of a 2D graphics library: it opens windows with a GL context,
puts them in their place, translates input and runs an event loop that serves
several windows, modal ones among them.

* `src/` decides. It is written in Verus: each function states what it returns or
  changes, and the statements are proved. It opens no window: it calls `winit` only
  for what can be computed without one. Those calls stand in seven small functions
  whose statements are believed, not proved: `parse_cursor_icon` in `cursor`,
  `icon_from_rgba` in `icon`, `physical_key_scancode` in `keyboard`, and
  `control_key`, `alt_key`, `shift_key` and `super_key` in `modifiers`.
* `app/` does. It performs what `src/` says with `winit`, `glutin` and `glow`, and
  reports what came of it.
* `tests/` runs `src/` on concrete values.

The event loop is a transition system. `model` says what each event does to its
state and what is to be done about it; `app::GlutinApp` computes that; `laws` holds
what is true of every run: that a modal window keeps input from the others, that
commands are carried out in order, that early events are not lost, and so on.

| module | what it holds |
| --- | --- |
| `app`, `model`, `steps`, `laws` | the event loop |
| `events`, `keyboard`, `modifiers` | what happens to windows, and what handlers are told |
| `helper`, `cursor`, `icon` | what handlers can do with their windows |
| `creation`, `context`, `options`, `placement` | how a window comes to be, and where |
| `window`, `dimen`, `error` | the main window, vectors, errors |

Scale factors, and vectors of floating-point numbers, are type parameters in
`src/`: they are carried through unread.
