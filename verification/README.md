# rustls_fingerprint

Browser TLS fingerprints for a ClientHello, verified with Verus.

- `src/handshake.rs`: the ClientHello, its extensions and their encoding on the wire.
- `src/fingerprint/`: the Chrome and Safari profiles, seeded by the session id so that a
  retried ClientHello gets the same GREASE values and extension order.
- `src/patches/`: the Chrome and WebKit profiles drawn from `rand`'s thread-local
  generator, and the encoding of raw extensions.
- `src/builder.rs`: building a client configuration, with a profile's group fix-ups and
  ECH GREASE.
- `app/main.rs`: prints the ClientHello a profile makes for a host name, as hex.
