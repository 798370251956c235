# game_server_list

A list of running game servers. A game server opens a websocket, introduces
itself with a JSON message such as `{"name": "My Game", "port": 31400, "tls":
true}` (or the same without `tls`), and then reports its player count with
messages such as `{"players": 3}`. It is listed until its connection ends.

- `GET /api/list/servers` returns the servers as JSON. `offset` and `limit` in
  the query string ask for a page.
- `WS /api/list/ws` is where game servers connect.

A server whose client has a private IPv4 address runs next to the list: it is
marked as official, and listed at the public address of the list.

## Layout

- `src/` is the library, verified with Verus: the list (`server_list`), the
  messages (`message`), the life of a connection (`session`), a connection that
  is only watched (`monitor`), and what holds over several calls and whole
  sessions (`laws`).
- `app/` is the program around it: sockets, routes, JSON, logging,
  configuration.
- `tests/` runs the library.
