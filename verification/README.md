# shrieker

A desktop client for the sculk peer-to-peer Minecraft tunnel.  The crate is a
Verus library that holds the client's decisions, parsers and formatters with
their contracts and proofs; `app/` is the egui window around it.

- `src/session.rs`: the window's controller.  Every action of the user and every
  report of outside work goes through a `Session` method, which returns the work
  to do next (`Effect`) and keeps the controller's invariant (`Session::wf`).
- `src/host.rs`: the decisions of the host task (`HostMonitor`): health checks
  of the Minecraft server, held-back events, republished share links.
- `src/settings.rs`, `src/persist.rs`, `src/lines.rs`: the preferences files, with
  proofs that what is written reads back unchanged.
- `src/lan.rs`: the LAN announcement, with a proof that the announced name field
  cannot be broken by the name.
- `src/input.rs`, `src/number.rs`: the form fields, read as `str::parse` reads them.
- `src/format.rs`, `src/logs.rs`: byte counts, remaining times and the log panel.
- `src/paths.rs`, `src/share.rs`: where files live, share links and relay
  addresses, through the tunnel library and `dirs`.
- `app/`: the window, the tray, the tunnel tasks and file I/O.
