# IronVeil

A WireGuard VPN built on boringtun. The library (`src/`) holds what the VPN
decides and computes, with Verus contracts:

- `crypto`, `keygen`: x25519 key pairs and their standard base64 text form.
- `config`: the configuration model, the listen port, the client
  configuration template.
- `routing`: the route / DNS / kill-switch command scripts for Unix and
  Windows, the verdict after each command, the runner's next step after
  each event (stop at the first failure), and the laws that relate them
  (removing routes reverts adding them; the two /1 halves cover IPv4).
- `netstate`: a model of the Unix routing table and `OUTPUT` chains, in
  which removing the routes restores the state and the kill switch's round
  trip leaves only the server rule behind.
- `encoding`: the standard base64 text (RFC 4648), proved injective, and the
  decoder's error messages.
- `parse`: reading a trimmed decimal `u32`, as `str::trim` and
  `u32::from_str` do.
- `tunnel`, `relay`: boringtun tunnels, which record their keys, settings
  and every packet they are handed, and the client and server packet relays
  (what each hands the tunnel, and what to send, write or print after).
- `probe`, `text`: the TUN probe's packet report and decimal rendering.

`app/` holds the programs (server, client, key tools, probe, backend): file,
socket, TUN and process I/O around the library.
