# phirepass

The verified core of a reverse-tunnelling gateway: nodes keep one WebSocket open to a
server, and web clients reach the nodes' SSH and SFTP services through it.

- `src/` is the library, checked by Verus: the binary frame formats and their
  round trips, control messages, personal access tokens, the agent's stored
  credentials, the daemon's session and transfer tables, routing of node frames,
  SFTP path and chunking rules, the relay's node lookup and cache rules.
- `tests/` runs the library on concrete values.
- `app/` holds what the library leaves to its callers: command lines, settings,
  logging, serde forms of the messages, files, clocks and channels.
