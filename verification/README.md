# simplemodbus

A simple Modbus engine: 64Ki coils and 64Ki holding registers served over std mpsc
channels, with its request handling verified in Verus.

- `src/mbtypes.rs`: values, packets, commands and replies, and their mathematical views.
- `src/mbcore.rs`: the device model `MbState`, the spec of every operation, and `MbCore`,
  whose operations are proved to follow it.
- `src/laws.rs`: properties across operations (reads give back writes, footprints,
  refused commands, exception codes).
- `src/channel.rs`: the std mpsc types and the calls that open a channel and take a
  command from it; these, with `MbCore::get_channel` (which clones the sender), are the
  trusted code.
- `app/`: the processing loop (which sends the replies and sleeps while idle) and the
  threaded demo.
