# protun

The decision logic of a VPN tunnel client, written in Verus with its contracts
proved.

- `src/` is the verified library: configuration parsing (INI text, ports,
  base64 keys), the connection state machine and its peer bookkeeping, the
  local-agent message handler and its statistics estimates, stream read/write
  reactions and TCP write queues, route planning and stored-route bookkeeping,
  internet-interface selection and network-change decisions, the event
  debouncer, Wintun ring sizing, the persistent cache model, cookie storage and
  the textual forms of IP addresses.
- `tests/` runs the library on concrete values.
- `app/` holds what Verus cannot check: file and socket I/O, the mio event
  loop that drives the verified state machine, and the serde copies of the
  library types that are written to disk.
