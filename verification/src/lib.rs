//! Streams that travel as SNS messages. One message is one Stream, its id
//! kept beside it.
//!
//! SNS is the fan-out of every organisation that lives in AWS: a topic, and
//! subscriptions that deliver what is published to it. A Send Location
//! publishes a Stream as one message to a topic; a Receive Location is the
//! HTTP endpoint a subscription delivers to: it confirms the subscription SNS
//! offers it by fetching the URL SNS sends, then takes each notification as a
//! Stream.
//!
//! ```text
//! transport.rs     the transport: what it sends, and what it takes
//! client.rs        the near side: publish, confirm
//! subscription.rs  the endpoint SNS delivers to, and what it delivers
//! session.rs       the far end a test or a playground runs on loopback
//! loopback.rs      both ends on one machine, round and back
//! message.rs       what one message carries
//! exchange.rs      requests, responses and Streams as plain values
//! error.rs         what goes wrong
//! json.rs          JSON documents, which `serde_json` reads and writes
//! text.rs          text: compared, ordered, split, and numbers written
//! ```
//!
//! Everything here is decided on plain values. Sockets, HTTP itself, the
//! encoding of the Query API and Signature Version 4 are the caller's: what
//! they come to is handed in, and what is to be sent comes out.
//!
//! A message is text, one to 256 KiB of the characters XML permits, and the
//! transport carries bytes as they are or says why it cannot: what is not that
//! text is refused before a request is formed, never encoded and called
//! delivered. [`ceiling`] and [`refusal`] say both rules.
//!
//! The origin URI is the topic ARN with the message id as its fragment. A send
//! target is a topic ARN, or empty for this transport's own topic.

pub mod client;
pub mod error;
pub mod exchange;
pub mod json;
pub mod loopback;
pub mod message;
pub mod session;
pub mod subscription;
pub mod text;
pub mod transport;

pub use client::{Client, VERSION};
pub use error::TransportError;
pub use exchange::Arrived;
pub use loopback::LOOPBACK_TOPIC;
pub use message::{ceiling, refusal};
pub use session::{Event, Session};
pub use subscription::Delivery;
pub use transport::SnsTransport;
