//! Typed client library for the Kite Connect trading platform, centred on the
//! real-time market-data streaming subsystem: wire-format encoding of
//! subscription control messages, a subscription ledger, a replay stream that
//! re-sends the ledger after every (re)connection, and the connection state
//! machine that drives a resilient WebSocket transport.

pub mod auth;
pub mod checksum;
pub mod client;
pub mod digits;
pub mod error;
pub mod mode;
pub mod models;
pub mod request;
pub mod stream;

pub use client::ConnectionAction;
pub use client::ConnectionPhase;
pub use client::TickerConnection;
pub use error::KiteApiException;
pub use mode::Mode;
pub use request::TickerRequest;
pub use stream::KiteStreamCredentials;
pub use stream::StreamState;
pub use stream::SubscriptionStream;
