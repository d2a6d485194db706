# libruntime

The runtime library of the system's user-space programs: the wire formats
exchanged with the system servers, the clients and servers of their
messages, and the state kept by programs about themselves and their devices.

## Layout

- `src/` — the library, verified with Verus.
  - `layout`, `record_block`, `text`: little-endian fields, the record blocks
    that the list formats share, UTF-8 text.
  - `kobject`, `ipc`: memory objects and ports held as values, the handle
    slots of a message, the buffers a client lends and the views a server
    takes of them.
  - `process`: the KVBlock (environment, arguments), the SymBlock (symbols),
    the process list block, the process client and server, the process API
    (processes, waiters, the current process).
  - `vfs`: the mounts and directory entries blocks, the VFS and file system
    clients, the server framing of their messages, the file API.
  - `net`: buffer descriptors, the buffer pool index, the routes block, the
    network and device clients, the device server state.
  - `state`, `time`: their clients and servers, durations and timestamps.
  - `service`: the bookkeeping of the component runner: ids, the components
    by id, and the list the cached waiter waits on.
- `tests/` — tests run against the compiled library.
- `app/` — what stays outside the verified library: locks and notifications
  built on atomics, the servers whose implementations are asynchronous, the
  loop of the component runner, the device callbacks that carry a driver's
  events to the notifications the device table decides, the process-wide clients and the textual
  forms of the errors.

Every client takes the transport as a function from request to reply, so
the library makes no kernel call itself: a program hands its clients the IPC
call, and a test can hand them a server directly.
