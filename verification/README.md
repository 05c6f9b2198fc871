# ignite

A small service that stores searchable memories and directed edges between
them, served over HTTP (and as MCP tools over stdio), with an embedded
in-memory SurrealDB as its record store.

The library in `src/` is verified with Verus:

- `text`: blank text (white space only), which every write refuses.
- `embedding`: the byte profile of a text, from which its embedding is made.
- `model`: memories, identifiers, edges, payloads, and record identifiers.
- `error`: the service's errors, their HTTP statuses and tool-protocol form.
- `service`: each operation as a flow of decisions between store calls:
  `Flow::Waiting(call, stage)` until the caller hands back the store's reply,
  `Flow::Finished(result)` at the end.
- `laws`: a description of a correct record store and the laws that every
  run of the flows against such a store obeys (a read gives back what was
  written, deletion takes edges with it, refusals change nothing, every flow
  ends within three calls).
- `outside`: the declared outside types and the trusted wrappers around the
  clock and UUID generation.

`app/` holds what cannot be verified: the actix-web routes, the MCP tools,
the SurrealDB queries that perform each store call, the loop that runs a
flow, and the floating-point scaling of embeddings.
