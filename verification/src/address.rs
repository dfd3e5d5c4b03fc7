//! Addresses of the two IP families, as numbers.

use crate::block::lemma_host_is_network;
use crate::outside::{block_of_text, format_block, parse_block, text_of_block};
use vstd::prelude::*;

verus! {

/// An IPv4 or IPv6 address: the number that its bits spell, the first octet
/// in the highest place.
#[derive(Clone, Copy, Debug, PartialEq, Eq, Structural)]
pub enum IpAddress {
    V4(u32),
    V6(u128),
}

/// The address that `text` names as a bare address.
///
/// A bare address is a text without `/` that reads as the block of one
/// single address. The `cidr` crate hands such a text to the address parser
/// of the standard library and to nothing else, so these are the texts
/// which that parser accepts.
pub open spec fn address_of_text(text: Seq<char>) -> Option<IpAddress> {
    match block_of_text(text) {
        Some((address, prefix_len)) => if !text.contains('/') && prefix_len
            == address.spec_width() {
            Some(address)
        } else {
            None
        },
        None => None,
    }
}

/// How an address is written: as the block that holds it alone.
pub open spec fn text_of_address(address: IpAddress) -> Seq<char> {
    text_of_block(address, address.spec_width())
}

/// The bits of an IPv4 address that lie after a prefix of `prefix_len` bits.
pub open spec fn host_mask_v4(prefix_len: u8) -> u32 {
    if prefix_len < 32 {
        0xffff_ffffu32 >> prefix_len
    } else {
        0
    }
}

/// The bits of an IPv6 address that lie after a prefix of `prefix_len` bits.
pub open spec fn host_mask_v6(prefix_len: u8) -> u128 {
    if prefix_len < 128 {
        0xffff_ffff_ffff_ffff_ffff_ffff_ffff_ffffu128 >> prefix_len
    } else {
        0
    }
}

/// Whether `text` holds the character `/`.
pub fn has_slash(text: &str) -> (r: bool)
    ensures
        r == text@.contains('/'),
{
    let mut found: bool = false;
    for c in it: text.chars()
        invariant
            it.seq() == text@,
            found == exists|j: int| 0 <= j < it.index() && text@[j] == '/',
    {
        if c == '/' {
            found = true;
        }
    }
    found
}

impl IpAddress {
    /// The number of bits in an address of this family.
    pub open spec fn spec_width(&self) -> u8 {
        match self {
            IpAddress::V4(_) => 32,
            IpAddress::V6(_) => 128,
        }
    }

    /// Whether every bit after the first `prefix_len` bits is zero.
    pub open spec fn spec_has_zero_host_part(&self, prefix_len: u8) -> bool {
        match self {
            IpAddress::V4(bits) => *bits & host_mask_v4(prefix_len) == 0,
            IpAddress::V6(bits) => *bits & host_mask_v6(prefix_len) == 0,
        }
    }

    /// The number of bits in an address of this family.
    #[verifier::when_used_as_spec(spec_width)]
    pub fn width(&self) -> (w: u8)
        ensures
            w == self.spec_width(),
    {
        match self {
            IpAddress::V4(_) => 32,
            IpAddress::V6(_) => 128,
        }
    }

    /// Whether every bit after the first `prefix_len` bits is zero.
    #[verifier::when_used_as_spec(spec_has_zero_host_part)]
    pub fn has_zero_host_part(&self, prefix_len: u8) -> (r: bool)
        ensures
            r == self.spec_has_zero_host_part(prefix_len),
    {
        match self {
            IpAddress::V4(bits) => {
                let mask: u32 = if prefix_len < 32 {
                    u32::MAX >> prefix_len
                } else {
                    0
                };
                *bits & mask == 0
            },
            IpAddress::V6(bits) => {
                let mask: u128 = if prefix_len < 128 {
                    u128::MAX >> prefix_len
                } else {
                    0
                };
                *bits & mask == 0
            },
        }
    }

    /// Reads a bare address.
    pub fn parse(text: &str) -> (r: Option<IpAddress>)
        ensures
            r == address_of_text(text@),
    {
        let block = parse_block(text);
        let slash = has_slash(text);
        match block {
            Some((address, prefix_len)) => if !slash && prefix_len == address.width() {
                Some(address)
            } else {
                None
            },
            None => None,
        }
    }

    /// Writes the address in the usual notation of its family.
    pub fn to_text(&self) -> (r: String)
        ensures
            r@ == text_of_address(*self),
    {
        proof {
            lemma_host_is_network(*self);
        }
        format_block(*self, self.width())
    }
}

} // verus!
