# rbuilder-operator

The Flashbots operator around rbuilder: it wires a remote bidding service,
the relays' best-bid stream, true-block-value pushing and the operator's
configuration into rbuilder's live builder.

## Layout

- `src/` is the verified library (Verus). It holds the logic of the operator:
  - `block_descriptor_bidding`: the registry from block ids to built blocks
    (a sliding window of the latest blocks) and the adapters' decisions
    between full blocks and block descriptors;
  - `bidding_service_wrapper`: the protocol messages of the bidding service,
    their conversions, the session ids and what is done with each callback;
  - `best_bid_ws`: the subscriptions to the best-bid stream and the decisions
    of the task that reads it;
  - `true_block_value_push`: the best true value cell, which never goes back
    to a past slot nor to a lower value for the same block, and the decisions
    of the task that pushes it;
  - `flashbots_config`: which block processor client, which pusher, which bid
    value source, which builders, which clickhouse settings, and the key
    registration request;
  - `metrics`, `build_info`, `timestamp`, `u256`, `interfaces`: the values
    the rest is stated over.
- `tests/` runs the library on concrete values.
- `app/` is the runtime: sockets, gRPC, redis, threads, prometheus
  registration, serde and the implementations of rbuilder's traits.
