# options_menu

The options menu of a first-person game, split in two:

- `src/` is the verified library: the rules of the menu. Which video modes
  it offers and how their list entries read (`video`); which physical input
  an event designates (`controls`); how the menu reacts to widget events
  and raw input events, and what the widgets must show after the model
  changed (`menu`); what a new menu is built from (`plan`); and the laws
  that relate these steps (`laws`), proved by Verus.
- `app/` builds the widgets with the rg3d engine, converts engine events to
  the library's events, and carries out what the library answers (setting
  widget texts and values, the renderer's quality settings, the master
  gain, the music volume message, full-screen switching).

The library never sees a widget, only plain handles (pool index and
generation); real numbers (volumes, distances, mouse sensitivity) stay with
the caller, and the library names the setting a value is for.
