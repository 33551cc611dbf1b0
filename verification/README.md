# hydradx_service

Decides how a HydraDX parachain node is brought up: which parts are built, in which order and with
which settings, which failure ends the start, and which lines the peer log gets. The decisions are
verified with Verus; the blockchain framework does the work.

- `src/platform.rs` names the framework's values, which are only passed on.
- `src/config.rs`, `src/executor.rs`, `src/relay.rs`, `src/network.rs`, `src/consensus.rs` turn a
  configuration into what the framework is asked for.
- `src/partial.rs` and `src/node.rs` hold the two sequences of calls as stages. A stage's fields say
  what the next call is made with, and its method takes what the call gave. `replay_partial` and
  `replay_start_node` go through all stages; their contracts state a whole construction and a whole
  start, with the calls of a start in their order.
- `src/pools.rs` is what the RPC shares with the tasks that keep the Ethereum view of the chain, and
  `src/tasks.rs` names the node's own tasks.
- `src/peer_log.rs`, `src/peer_table.rs`, `src/text.rs` are the peer log: the line of each event, and
  the log of a whole stream of events.
- `src/identity.rs` writes the node's identity as JSON.
- `src/factory.rs` is the factory of nodes.
- `app/` makes the calls.
