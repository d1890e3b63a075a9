# amqp

A client library for AMQP brokers on top of librabbitmq-c.

- `src/` is the verified library: byte strings (`bytes`), field tables
  (`table`), message properties (`properties`), method numbers, replies and
  method structures (`methods`), and the connection's decisions
  (`connection`): what each operation sends to the broker library and what
  it makes of the answer, including the open/closed state of the socket.
- `app/` makes the calls into librabbitmq-c (`ffi`, `client`) and holds the
  example program (`hello`).
- `tests/` runs the library on concrete values.
