//! Blocks of addresses: a first address and the length of the prefix that
//! all addresses of the block share.

use crate::address::IpAddress;
use crate::outside::{block_of_text, format_block, parse_block, text_of_block};
use crate::view::model;
use vstd::prelude::*;

verus! {

/// Whether `address` and `prefix_len` make a block: the prefix is no longer
/// than the address, and the address is the first of the block, with no bit
/// set after the prefix.
pub open spec fn is_network(address: IpAddress, prefix_len: u8) -> bool {
    prefix_len <= address.spec_width() && address.spec_has_zero_host_part(prefix_len)
}

/// Every address alone makes a block: after a prefix as long as the address
/// no bit is left.
pub proof fn lemma_host_is_network(address: IpAddress)
    ensures
        is_network(address, address.spec_width()),
{
    match address {
        IpAddress::V4(bits) => {
            assert(bits & 0u32 == 0) by (bit_vector);
        },
        IpAddress::V6(bits) => {
            assert(bits & 0u128 == 0) by (bit_vector);
        },
    }
}

/// A block of addresses of one family.
#[derive(Clone, Copy, Debug, PartialEq, Eq, Structural)]
pub struct IpBlock {
    address: IpAddress,
    prefix_len: u8,
}

impl View for IpBlock {
    type V = (IpAddress, u8);

    /// The first address of the block and the length of its prefix.
    closed spec fn view(&self) -> (IpAddress, u8) {
        (self.address, self.prefix_len)
    }
}

impl IpBlock {
    #[verifier::type_invariant]
    spec fn well_formed(self) -> bool {
        is_network(self.address, self.prefix_len)
    }

    /// The block with this first address and this prefix length, if the two
    /// make one.
    pub fn new(address: IpAddress, prefix_len: u8) -> (r: Option<IpBlock>)
        ensures
            r is Some <==> is_network(address, prefix_len),
            r matches Some(block) ==> block@ == (address, prefix_len),
    {
        if prefix_len <= address.width() && address.has_zero_host_part(prefix_len) {
            Some(IpBlock { address, prefix_len })
        } else {
            None
        }
    }

    /// The block that holds `address` and nothing else.
    pub fn host(address: IpAddress) -> (block: IpBlock)
        ensures
            block@ == (address, address.spec_width()),
    {
        let prefix_len: u8 = address.width();
        proof {
            lemma_host_is_network(address);
        }
        IpBlock { address, prefix_len }
    }

    /// The first address of the block.
    pub fn address(&self) -> (a: IpAddress)
        ensures
            a == self@.0,
            is_network(self@.0, self@.1),
    {
        proof {
            use_type_invariant(self);
        }
        self.address
    }

    /// The number of leading bits that all addresses of the block share.
    pub fn prefix_len(&self) -> (n: u8)
        ensures
            n == self@.1,
            is_network(self@.0, self@.1),
    {
        proof {
            use_type_invariant(self);
        }
        self.prefix_len
    }

    /// Reads a block: an address, then `/` and a prefix length, or an address
    /// alone for the block of that one address.
    pub fn parse(text: &str) -> (r: Option<IpBlock>)
        ensures
            model(r) == block_of_text(text@),
    {
        match parse_block(text) {
            Some((address, prefix_len)) => Some(IpBlock { address, prefix_len }),
            None => None,
        }
    }

    /// Writes the block: its first address, then `/` and the prefix length
    /// unless the block is a single address.
    pub fn to_text(&self) -> (r: String)
        ensures
            r@ == text_of_block(self@.0, self@.1),
    {
        proof {
            use_type_invariant(self);
        }
        format_block(self.address, self.prefix_len)
    }
}

} // verus!
