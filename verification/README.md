# bore_cli

A TCP tunnel. A client exposes ports of its own host at a server: the server opens a
port for it, tells it of each connection that comes in, and the client fetches the
connection and passes its bytes on to the local host.

- `src/` is the library, verified with Verus: the ranges of addresses and ports that a
  command names (`command`, `ip_range`, `forward`), the client (`client`), the server
  and its control connections (`server`, `session`), and what holds of a whole
  session, of a server with all its sessions, and of both sides together (`history`,
  `service`, `tunnel`). `random` and `registry` hold the
  calls into `fastrand`, `uuid` and `dashmap`.
- `app/` is the program: arguments, sockets, timeouts and tasks. It performs the
  actions that the library asks for and reports how they came out.
- `tests/` runs the library on concrete values.

`bore local 8000 --to example.org` exposes port 8000 of `localhost`;
`-m 8010` exposes the ports up to 8010, and `-l 192.168.1.1-10` the same port of ten
hosts. `bore server` runs a server.
