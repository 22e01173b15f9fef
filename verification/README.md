# proxmox-fuse

The daemon side of FUSE, the Linux kernel's protocol for filesystems in user space, without libfuse.

`src/` is the library. It is written in Verus: every function states in `requires` and `ensures`
what it does, and Verus proves it. The library works on bytes and plain values alone:

- `wire`, `layout`: integers and structures as they lie in the kernel's messages
- `protocol`: the structures, opcodes and flags of `<linux/fuse.h>`
- `message`: from the bytes of a message to the request in it
- `requests`, `reply`: the requests, the messages that answer them, and what is owed to the kernel
  when such a message cannot be delivered
- `session`: the handshake, the requests that wait, and what to do after each read
- `mount`: what mounting and unmounting hand to the system
- `sys`, `util`, `error`, `cstring`, `cast`, `text`: types and helpers that these share

Properties that span several functions are stated as public proof functions beside the types they
are about, such as `session::lemma_request_or_answer` (each message becomes one request or is
answered right away, never both) and `sys::lemma_listing` (a directory listing reads back as the
entries that were added).

Two functions of the standard library are trusted to do what their documentation says:
`Arc::clone` (`message::share`) and `str::from_utf8` (`session::utf8_text`).

`app/` is the asynchronous daemon around the library. It opens `/dev/fuse`, mounts, reads and
writes with `libc`, waits with `tokio`, and yields the requests as a `futures` stream.
