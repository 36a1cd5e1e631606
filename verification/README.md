# up_transport_iceoryx2_rust

A uProtocol transport over iceoryx2 shared-memory publish-subscribe, with
its computing and deciding parts verified with Verus.

- `src/` — the verified library:
  - `umessage`: a serialized message in a fixed 4096-byte buffer;
  - `uprotocolheader`: the user header of each sample (protocol version and
    serialized attributes, cut to 1000 bytes);
  - `sample`: what is written into a sample for a message;
  - `transport`: the choice of transport for a messaging pattern;
  - `keyed`: an insertion-ordered map without repeated keys;
  - `registry`, `worker`: the bookkeeping of publishers, subscribers and
    listeners per service, for the publish-subscribe transport and for the
    background worker, with the laws of registration;
  - `relay`: what the relay does with each received sample;
  - `status`: the failures reported.
- `app/` — the iceoryx2 nodes, ports and samples, and the async
  `UTransport` implementations that drive the library.
- `tests/` — tests of the library on concrete values.

The mapping from uProtocol URIs to iceoryx2 service names is supplied by the
user of `app/` as a function.
