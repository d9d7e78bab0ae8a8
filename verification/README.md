# deskserver

One keyboard and mouse shared between macOS and Windows machines on a LAN.
The server captures input; when the pointer leaves its screen through an edge
linked to a client's screen (or on a double tap of Left Shift), it stops acting
on the input itself and forwards it to the client, which synthesizes it.

The verified library (`src/`, checked with Verus):

- `protocol` — the modifier bits, mouse buttons, and the framing of messages:
  a little-endian `u32` length, then the payload; frames over 1 MiB are refused.
- `keymap` — neutral key identifiers and the macOS and Windows keycode tables,
  with the Cmd/Ctrl swap; modifier flag conversion.
- `session` — the client's reaction to each message (absolute moves before
  the first ScreenEnter, relative while controlled, none after ScreenLeave),
  the server's mode changes, the double-tap hotkey.
- `server` — the server's capture loop as a step function: what stays on this
  machine, what is forwarded, when the pointer crosses, the settling moves.
- `capture` — what the raw events of the macOS event tap and the Windows
  low-level hooks mean.
- `layout` — the links between touching screen edges.
- `state` — roles, modes, sides, the event log ring buffer, the machine name.
- `discovery` — mDNS names, the TXT record, the dedup of scanned servers, and
  the address a client dials.
- `tray` — the tray icon's pixels.

`app/` holds the programs around it: the egui dashboard, the network thread,
mDNS discovery, the platform capture hooks, the layout geometry (floating
point), and the command-line servers and clients (`deskserver server`,
`deskserver test-server`, `deskserver client <ip>`, `deskserver test-client <ip>`).
