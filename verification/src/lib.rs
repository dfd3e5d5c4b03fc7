//! A proxy selector: how one outbound connection leaves the machine.
//!
//! A selector names an upstream proxy by its URL, a local interface by its
//! address, or a block of addresses from which a caller draws one per
//! connection. The crate reads a selector from a single line of text, writes
//! it back in the syntax of its payload, and proves which of the three
//! readings a text gets.

pub mod address;
pub mod block;
pub mod laws;
pub mod outside;
pub mod proxy;
pub mod upstream;
pub mod view;

pub use address::IpAddress;
pub use block::IpBlock;
pub use proxy::{Proxies, Selector, UnrecognizedProxySelector};
pub use upstream::ProxyUrl;
