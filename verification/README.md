# chainx

The verified core of a ChainX node, written in Verus.

- `src/network.rs`: the chain-specific network protocol. It keeps the
  connected peers, the session keys that validators announce, and the live
  consensus session; its handlers return what the caller must do with the
  consensus gossip and the network (forward, report). Its contracts are
  given over `ProtocolModel` and transition functions, and the laws that
  relate the handlers are proof functions over them.
- `src/validator_map.rs`: the index from session keys to peers.
- `src/pool.rs`: the extrinsic pool's chain-specific policy (verification,
  readiness, scoring) and the result of an import.
- `src/hex.rs`: the text form of a 256-bit hash.
- `src/hashing.rs`: BLAKE2b-256, computed by `blake2-rfc`.
- `src/runtime.rs`: the inherent extrinsics, the runtime version and the
  account-to-session-key conversion.
- `app/`: serde forms of the runtime types; the driver that performs the
  protocol's actions on the gossip and the network; the transaction pool's
  network interface, over traits that stand for the pool and the client.
