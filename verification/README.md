# ping_server

A server and client bundled into one: clients prove to a server that they
know a shared key, introduce themselves by name and ping at a fixed interval;
the server checks the key, reads the name, listens to the pings and publishes
how long ago each client was last seen.

- `src/` is the verified library: the client's handshake machine
  (`client`), the plain client (`connection`), the server's per-client
  conversation (`server`), the configuration (`config`), the metrics page
  (`metrics`), byte framing (`wire`), decimal text (`text`), and laws that
  relate the two sides (`agreement`).
- `app/` is the program: it reads the configuration file, opens the TCP
  connections, runs the machines of `src/` over them, and serves the metrics
  page over HTTP.
