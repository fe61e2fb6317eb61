# file_transfer

Verified core of a peer-to-peer file transfer tool.

- `src/` is the library, verified with Verus: chunk planning (`engine::scheduler`),
  the transfer queue (`engine::queue`), incremental BLAKE3 hashing
  (`engine::hashing`), the sender and receiver sessions (`engine::sender`,
  `engine::receiver`) with the laws that relate them (`engine::transfer`), the
  protocol messages (`net::protocol`), link-local address selection
  (`net::direct_link`), the error type and its user messages (`error`), and the
  decisions of the user-facing commands (`commands`).
- `app/` is the desktop application around it: sockets, files, framing and
  serialization, the Tauri commands, window and event sink.
- `tests/` exercises the library.
