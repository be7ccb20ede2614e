# data_device

The data device of a Wayland seat, verified with Verus.

- `src/dnd_action.rs`: sets of drag'n'drop actions (protocol bits) and the
  default action chooser, with its laws.
- `src/selection.rs`: the selection a seat holds (none, a client's, the
  compositor's), the seat's focused client, the answers to requests for the
  selection's contents, and what is offered to the focused client.
- `src/handler.rs`: the compositor's hook for choosing a drag'n'drop action.
- `app/`: the wayland-server side: the manager global, wire conversions, and
  forwarding a granted request to the client source with the file descriptor.
- `tests/`: tests of the library.

Left out: the data-device manager's request dispatch, `start_dnd`, the
drag'n'drop grab handler traits, the `new_selection`/`send_selection`/
`data_device_state` members of the handler, and the per-client list of data
devices. They rest on the compositor's seat, pointer grabs and data
source/device bookkeeping, whose code is not part of this project's sources.
A client selection holds the mime types of its source as given when it is
set; keeping them current is the caller's task.
