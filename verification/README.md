# keycast

A Wayland daemon that fixes text typed in the wrong keyboard layout
(Faroese <> Ukrainian): select the text, press the hotkey bound to
`keycast --trigger`, and the selection is converted and pasted back.

- `src/` is the verified library: the key tables of both layouts
  (`layout`), key strokes (`stroke`), direction detection and conversion
  (`mapper`), the fix decision and the trigger byte (`fix`), the virtual
  keyboard's key events (`keyboard`), and the laws proved about them
  (`layout_laws`, `translation_laws`).
- `app/` is the daemon: the Unix socket, the clipboard (arboard) and the
  virtual keyboard (evdev).
