# quiche (verified wire layer)

The QUIC wire-level pieces of quiche and the decisions a connection takes
from plain facts about its state, written in Verus with their contracts
proved:

- `src/error.rs`: the error type, its transport error codes and C codes, and
  the stream shutdown direction.
- `src/octets.rs`: big-endian integers and QUIC variable-length integers,
  with the proof that reading back an encoded integer gives it back.
- `src/transport_params.rs`: the transport parameters, their encoder and
  decoder, the proof that decoding what the peer encoded gives the same
  parameters, and the limits that every decoded set keeps.
- `src/packet.rs`: supported versions, version negotiation packets and
  stateless Retry packets with their integrity tag. The tag is an
  AES-128-GCM seal of an empty message, computed by `ring` behind one
  trusted wrapper; the random first byte of a version negotiation packet
  comes from `rand_core`'s `OsRng`.
- `src/config.rs`: the connection configuration's transport parameters,
  ALPN list (with its wire-format round trip), congestion control
  algorithm, stream scheduler and switches; `src/cc.rs` and
  `src/scheduler.rs` hold the algorithm and scheduler kinds and their
  names, `src/text.rs` the comparison of a name with a word.
- `src/connection.rs`: what a connection makes of the peer's transport
  parameters after the TLS handshake, which version a client moves to on a
  version negotiation packet, the packet number space it sends in next,
  and the anti-amplification credit of a server, with the proof that a
  server never sends more than three times what an unverified client sent.
- `src/stats.rs`: connection statistics.

`app/` holds the text forms (`Display`, `Debug`) that Verus code cannot
implement, and the console messages of the SM2/SM4 switch.

## What this crate does not contain

The connection itself (`Connection`, `accept`, `connect`, packet sending
and receiving, frame processing, streams, loss recovery, the congestion
controllers, FEC, the stream schedulers' algorithms), the HTTP/3 layer, the
TLS-backed `Config` methods (certificates, keys, peer verification, key
logging), `Config::set_cc_algorithm`, `Config::set_redundancy_rate` and the
test harness are not part of it. They rest on the TLS stack (BoringSSL),
the SM2/SM4 implementation (libsm), Reed-Solomon coding, C callbacks for
congestion control and redundancy, and floating-point rates, none of which
this crate includes; the decisions among them that can be taken on plain
values are in `src/connection.rs`.
