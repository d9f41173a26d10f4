# smoldesk

The verified core of SmolDesk, a remote desktop for Linux (X11 and Wayland).

- `src/` is the library, checked by Verus: screen capture (encoder
  arguments, the stream buffer and its drop policies, adaptive quality,
  monitor detection from `xrandr`, `wlr-randr` and `swaymsg` output,
  splitting the encoder's output into frames), input forwarding (the
  `xdotool` commands each event becomes, held modifiers, gestures and
  multi-monitor placement) and clipboard synchronisation (tool invocations
  and their outcomes, the bounded history, change detection, the form
  entries are exchanged in).
- `app/` is the program around it: it runs the external tools, reads the
  environment and `/proc`, runs the capture and clipboard threads, and
  answers commands given as JSON lines on standard input.
- `tests/` runs the library on concrete values.

File transfer is not provided: the definitions its transfer sessions,
chunk management and security layer rest on are not available to this
project, so no faithful interface for it can be written.
