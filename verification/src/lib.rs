//! Answers the data requests that peers of a light subprotocol send to a node.
//!
//! [`Provider`] is what a node has to offer. [`FullProvider`] serves a full client that
//! can prove what it knows ([`ProvingBlockChainClient`] with [`CanonicalHashTries`]);
//! [`LightProvider`] wraps a light client, which serves no chain data but relays the
//! transactions of its own queue.
pub mod answers;
pub mod block;
pub mod cht;
pub mod client;
pub mod encoding;
pub mod full;
pub mod headers;
pub mod laws;
pub mod light;
pub mod lock;
pub mod provider;
pub mod request;

pub use crate::cht::CanonicalHashTries;
pub use crate::client::{AsLightClient, LightChainClient, ProvingBlockChainClient, TransactionQueue};
pub use crate::full::FullProvider;
pub use crate::headers::MAX_HEADERS_PER_REQUEST;
pub use crate::light::LightProvider;
pub use crate::provider::Provider;
