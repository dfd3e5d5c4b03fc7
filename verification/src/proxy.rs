//! The selector itself: its three variants, the reading of a text and the
//! writing of a value.

use crate::address::{address_of_text, text_of_address, IpAddress};
use crate::block::IpBlock;
use crate::outside::{block_of_text, text_of_block, url_of_text};
use crate::upstream::ProxyUrl;
use crate::view::model;
use vstd::prelude::*;

verus! {

/// How outbound traffic leaves.
#[derive(Debug, PartialEq, Eq)]
pub enum Proxies {
    /// Through an upstream proxy; `http`, `https`, `socks4`, `socks5` and
    /// `socks5h` are the schemes that callers understand.
    URL(ProxyUrl),
    /// From the local interface with this address.
    Iface(IpAddress),
    /// From an address that the caller draws from this block.
    CIDR(IpBlock),
}

/// A selector as a value of the model.
pub enum Selector {
    /// An upstream proxy, by the serialization of its URL.
    UpstreamProxy(Seq<char>),
    /// A local interface, by its address.
    BoundInterface(IpAddress),
    /// A block, by its first address and the length of its prefix.
    BoundBlock(IpAddress, u8),
}

impl View for Proxies {
    type V = Selector;

    open spec fn view(&self) -> Selector {
        match self {
            Proxies::URL(url) => Selector::UpstreamProxy(url@),
            Proxies::Iface(address) => Selector::BoundInterface(*address),
            Proxies::CIDR(block) => Selector::BoundBlock(block@.0, block@.1),
        }
    }
}

/// The text that matched none of the three syntaxes.
#[derive(Debug, PartialEq, Eq)]
pub struct UnrecognizedProxySelector {
    pub input: String,
}

/// The selector that three readings of one text amount to. An address goes
/// before a URL and a URL before a block, whatever the later readings hold.
pub open spec fn classify(
    address: Option<IpAddress>,
    url: Option<Seq<char>>,
    block: Option<(IpAddress, u8)>,
) -> Option<Selector> {
    match (address, url, block) {
        (Some(a), _, _) => Some(Selector::BoundInterface(a)),
        (None, Some(u), _) => Some(Selector::UpstreamProxy(u)),
        (None, None, Some((a, n))) => Some(Selector::BoundBlock(a, n)),
        (None, None, None) => None,
    }
}

/// The selector that `text` stands for, if it stands for one.
pub open spec fn selector_of_text(text: Seq<char>) -> Option<Selector> {
    classify(address_of_text(text), url_of_text(text), block_of_text(text))
}

/// How a selector is written: as its payload, with no mark of the variant.
pub open spec fn text_of_selector(selector: Selector) -> Seq<char> {
    match selector {
        Selector::UpstreamProxy(u) => u,
        Selector::BoundInterface(a) => text_of_address(a),
        Selector::BoundBlock(a, n) => text_of_block(a, n),
    }
}

impl Clone for Proxies {
    fn clone(&self) -> (r: Proxies)
        ensures
            r@ == self@,
    {
        match self {
            Proxies::URL(url) => Proxies::URL(url.clone()),
            Proxies::Iface(address) => Proxies::Iface(*address),
            Proxies::CIDR(block) => Proxies::CIDR(*block),
        }
    }
}

impl From<ProxyUrl> for Proxies {
    fn from(url: ProxyUrl) -> (r: Proxies) {
        Proxies::URL(url)
    }
}

impl vstd::std_specs::convert::FromSpecImpl<ProxyUrl> for Proxies {
    open spec fn obeys_from_spec() -> bool {
        true
    }

    open spec fn from_spec(url: ProxyUrl) -> Proxies {
        Proxies::URL(url)
    }
}

impl From<IpAddress> for Proxies {
    fn from(address: IpAddress) -> (r: Proxies) {
        Proxies::Iface(address)
    }
}

impl vstd::std_specs::convert::FromSpecImpl<IpAddress> for Proxies {
    open spec fn obeys_from_spec() -> bool {
        true
    }

    open spec fn from_spec(address: IpAddress) -> Proxies {
        Proxies::Iface(address)
    }
}

impl From<IpBlock> for Proxies {
    fn from(block: IpBlock) -> (r: Proxies) {
        Proxies::CIDR(block)
    }
}

impl vstd::std_specs::convert::FromSpecImpl<IpBlock> for Proxies {
    open spec fn obeys_from_spec() -> bool {
        true
    }

    open spec fn from_spec(block: IpBlock) -> Proxies {
        Proxies::CIDR(block)
    }
}

impl Proxies {
    /// Picks the selector among three readings of one text: the address if
    /// there is one, else the URL if there is one, else the block.
    pub fn select(address: Option<IpAddress>, url: Option<ProxyUrl>, block: Option<IpBlock>) -> (r:
        Option<Proxies>)
        ensures
            model(r) == classify(address, model(url), model(block)),
    {
        match (address, url, block) {
            (Some(a), _, _) => Some(Proxies::from(a)),
            (_, Some(u), _) => Some(Proxies::from(u)),
            (_, _, Some(b)) => Some(Proxies::from(b)),
            _ => None,
        }
    }

    /// Reads a selector. The text is tried as a bare address, as a URL and
    /// as a block, and the first of these that reads it decides.
    pub fn from_text(text: &str) -> (r: Result<Proxies, UnrecognizedProxySelector>)
        ensures
            match selector_of_text(text@) {
                Some(selector) => r matches Ok(proxy) && proxy@ == selector,
                None => r matches Err(e) && e.input@ == text@,
            },
    {
        let address = IpAddress::parse(text);
        let url = ProxyUrl::parse(text);
        let block = IpBlock::parse(text);
        match Proxies::select(address, url, block) {
            Some(proxy) => Ok(proxy),
            None => Err(UnrecognizedProxySelector { input: text.to_owned() }),
        }
    }

    /// Writes the selector as its payload is written.
    pub fn to_text(&self) -> (r: String)
        ensures
            r@ == text_of_selector(self@),
    {
        match self {
            Proxies::URL(url) => url.as_str().to_owned(),
            Proxies::Iface(address) => address.to_text(),
            Proxies::CIDR(block) => block.to_text(),
        }
    }
}

impl UnrecognizedProxySelector {
    /// What went wrong, in words.
    pub fn message(&self) -> (m: &'static str)
        ensures
            m@ == "failed to parse proxies"@,
    {
        "failed to parse proxies"
    }
}

} // verus!
