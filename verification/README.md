# desktopmcp

An MCP server for the Linux desktop: it drives applications through the
AT-SPI accessibility bus, calls and watches arbitrary D-Bus services, and
uses the XDG desktop portals (notifications, file dialogs, settings,
remote-desktop input, launchers and more).

The project is split in two.

- `src/` is the library, written in Verus. It holds the server's own logic
  with contracts and proofs: element identifiers and the AT-SPI
  role, state, relation and layer tables; the conversion between JSON and
  D-Bus values (with round-trip laws); the reading of introspection XML and
  the walk over an object tree; event patterns, subscriptions and the bounded
  event and signal buffers; session bookkeeping; input key sequences; pixel
  format conversion; and the argument parsing and answer texts of the tools.
  Calls into `zvariant`, `roxmltree`, `base64`, `uuid` and `serde_json`, and
  a few std functions (case mapping, `Debug` rendering, `String::push`), go
  through small trusted wrappers whose contracts are stated in their doc
  comments.
- `app/` is ordinary Rust around it: the MCP server (`rmcp`) with its tool
  list, argument reading and dispatch, the walks over the accessibility tree
  and the reading of D-Bus replies that drive them, the D-Bus and AT-SPI connections (`zbus`), the portal
  calls (`ashpd`), and the conversions between the library's values and the
  outside crates' ones.

`tests/` holds the library's tests.

Screen capture from a screencast stream needs a PipeWire client, which the
server does not link; the portal's one-shot screenshot is offered instead.
