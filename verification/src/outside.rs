//! The calls into the `cidr` and `url` crates.
//!
//! Nothing in this file is proved. Each function makes one call and converts
//! its arguments and its result; its contract is what the rest of the crate
//! believes of that call. An address crosses as the number that `to_bits`
//! gives for it and that `From` takes back: its octets in network order.

use crate::address::IpAddress;
use crate::block::is_network;
use crate::view::model;
use cidr::{IpCidr, Ipv4Cidr, Ipv6Cidr};
use url::Url;
use vstd::prelude::*;

verus! {

/// The block that `cidr::IpCidr`'s `FromStr` reads in `text`, as its first
/// address and the length of its prefix; `None` where it reports an error.
pub uninterp spec fn block_of_text(text: Seq<char>) -> Option<(IpAddress, u8)>;

/// What the `Display` of `cidr::IpCidr` writes for the block with this first
/// address and this prefix length.
pub uninterp spec fn text_of_block(address: IpAddress, prefix_len: u8) -> Seq<char>;

/// The serialization of the URL that `url::Url::parse` reads in `text`;
/// `None` where it reports an error.
pub uninterp spec fn url_of_text(text: Seq<char>) -> Option<Seq<char>>;

/// Calls `<cidr::IpCidr as FromStr>::from_str`.
///
/// Believed: the outcome depends on the text alone, and a block that comes
/// back has a prefix no longer than its address and no bit set after the
/// prefix, since every path through the parser ends in `Cidr::new`, which
/// refuses anything else, or in `Cidr::new_host`, whose prefix is the whole
/// address.
#[verifier::external_body]
pub(crate) fn parse_block(text: &str) -> (r: Option<(IpAddress, u8)>)
    ensures
        r == block_of_text(text@),
        r matches Some((address, prefix_len)) ==> is_network(address, prefix_len),
{
    match text.parse::<IpCidr>() {
        Ok(IpCidr::V4(c)) => Some((IpAddress::V4(c.first_address().to_bits()), c.network_length())),
        Ok(IpCidr::V6(c)) => Some((IpAddress::V6(c.first_address().to_bits()), c.network_length())),
        Err(_) => None,
    }
}

/// Calls `to_string` on the `cidr::IpCidr` that `Ipv4Cidr::new` or
/// `Ipv6Cidr::new` makes of the two parts.
///
/// Believed: the text depends on the two parts alone. The precondition is
/// the condition under which `new` returns a block.
#[verifier::external_body]
pub(crate) fn format_block(address: IpAddress, prefix_len: u8) -> (r: String)
    requires
        is_network(address, prefix_len),
    ensures
        r@ == text_of_block(address, prefix_len),
{
    let block = match address {
        IpAddress::V4(bits) => Ipv4Cidr::new(bits.into(), prefix_len).map(IpCidr::V4),
        IpAddress::V6(bits) => Ipv6Cidr::new(bits.into(), prefix_len).map(IpCidr::V6),
    };
    block.unwrap().to_string()
}

/// Calls `url::Url::parse` and, on success, takes the URL's serialization.
///
/// Believed: the outcome depends on the text alone.
#[verifier::external_body]
pub(crate) fn parse_url(text: &str) -> (r: Option<String>)
    ensures
        model(r) == url_of_text(text@),
{
    match Url::parse(text) {
        Ok(url) => Some(String::from(url)),
        Err(_) => None,
    }
}

} // verus!
