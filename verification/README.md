# reverse_tunnel

A reverse tunnel: a public server hands each incoming HTTP connection, by the
first segment of its request path, to the client that registered that
subdomain over a control connection; the client opens a data connection back
and bridges it to a local service.

- `src/` is the verified library: request routing (`http`), numerals and
  addresses (`text`), the control protocol (`protocol`), the server's tables
  (`registry`), the client's tunnel state and connection decisions (`tunnel`),
  and the laws that hold across them (`laws`).
- `app/` is the program around it: the server's sockets and tasks, and the
  desktop client's window and background loop.
- `tests/` runs the library on concrete requests and sessions.
