# dungeon

A small client/server dungeon game. The library (`src/`) holds the game's
logic with Verus contracts and proofs:

- `text`: decimal rendering of integers, whitespace trimming, prefix tests;
- `types`: the request and response messages;
- `base`: players, classes and items, and how they are shown;
- `generator`: the item catalogue;
- `digest`: password digests (SHA-256 from `ring`, hex from `hex`);
- `game`: the roster, login and registration, what is stored, and the laws
  that relate them;
- `server`: the server's answer to each request;
- `connector`: the client's connection state and which requests may go out;
- `params`: the server's address parameters;
- `framing`: how a message is read off a connection, chunk by chunk.

`app/` holds the programs around it: the TCP server with its RocksDB
storage, the terminal client, and the JSON forms of the library's types.
