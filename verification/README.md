# aws-sns

Streams that travel as SNS messages, one message to a Stream, with every
decision made on plain values and proved in Verus.

- `src/` is the library. What it takes of a message, what it sends and takes,
  how the far end answers, and how deliveries are written and read back, are
  stated as contracts; what holds across several of them is stated by the
  `law_` functions beside them.
- `app/` puts the library on sockets, with the http technology for HTTP, the
  Query API and Signature Version 4.
- `tests/` runs the library on values.

What is believed and not proved is that `serde_json` reads and writes objects
of text as `src/json.rs` says, and that `std::str::from_utf8` tells UTF-8 from
other bytes (`src/text.rs`).
