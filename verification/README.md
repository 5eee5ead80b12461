# subxt_rpc

A client for a substrate node's JSON-RPC interface, split in two.

- `src/` is the verified library: block numbers, the node's reply types,
  the method and parameters of every call, and what the client makes of
  the replies (block hashes, the genesis hash, SCALE-encoded metadata),
  and the parse of the websocket address.
- `app/` is the network side: the websocket client, the JSON forms of the
  library's types, and the async calls that send what the library builds.
