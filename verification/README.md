# light_provider

Answers the data requests that the peers of a light subprotocol send to a node.

- `src/provider.rs`: the trait `Provider`, with the answer to a request for headers.
- `src/headers.rs`: which headers such a request asks for, and the laws about it.
- `src/full.rs`: the provider that serves a full client. What it asks of the client
  stands in `src/client.rs`, how it answers from what was found in `src/answers.rs`.
- `src/cht.rs`: proofs of headers in canonical hash tries.
- `src/light.rs`: the provider that a light client is.
- `src/request.rs`, `src/block.rs`: requests, responses and the values in them.
- `src/encoding.rs`, `src/lock.rs`: the calls into `rlp` and `parking_lot`.
- `app/`: a provider in the types of `ethereum-types`, with logging.

A contract that speaks of what a client answers does so through `call_ensures`: the
answer is made from some answer that the client may give to that very question.
