# nsq_client

A client for the NSQ messaging protocol whose core is verified with Verus.

- `src/` is the verified library: the framing of commands and bodies
  (`codec`), the command builders (`commands`, `msgs`), the connection's
  buffers, frame decoding and handshake decisions (`conn`), the settings
  (`config`), the producer's steps and its queue of publications waiting
  for a reply (`producer`), the errors and the handshake state types. `buffer` and `wire` hold the trusted items that
  reach `bytes::BytesMut`, `byteorder` and the standard library.
- `app/` is the I/O around it: sockets and the poll loop (mio), reader
  threads and channels (crossbeam), the producer's thread, connecting with
  back-off, JSON (serde), and TLS over the socket (rustls).
- `tests/` runs the library on concrete inputs.
