# vhost (GPU socket subset)

The vhost-user message header and the vhost-user GPU protocol, with their
behaviour proved by Verus.

- `src/` is the verified library: the message header types and their flag
  logic (`header.rs`, `gpu_message.rs`), the message bodies, and the
  decisions of a GPU backend (`gpu_backend_req.rs`): which header goes out
  with each request, when a failed connection refuses to send, and which
  replies are accepted.
- `app/` is ordinary Rust around it: C-layout copies of the messages for
  `vm_memory::ByteValued`, and the sending and receiving over the Unix socket.
- `tests/` runs the library on concrete values.
