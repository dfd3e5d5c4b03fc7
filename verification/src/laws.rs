//! What holds of reading and writing selectors, for every text.

use crate::address::{address_of_text, text_of_address, IpAddress};
use crate::outside::{block_of_text, text_of_block, url_of_text};
use crate::proxy::{classify, selector_of_text, text_of_selector, Selector};
use vstd::prelude::*;

verus! {

/// Whether `text` is a bare address written the way addresses are written.
pub open spec fn is_canonical_address(text: Seq<char>) -> bool {
    address_of_text(text) matches Some(a) && text_of_address(a) == text
}

/// Whether `text` is a URL that is its own serialization.
pub open spec fn is_canonical_url(text: Seq<char>) -> bool {
    url_of_text(text) == Some(text)
}

/// Whether `text` is a block written the way blocks are written.
pub open spec fn is_canonical_block(text: Seq<char>) -> bool {
    block_of_text(text) matches Some((a, n)) && text_of_block(a, n) == text
}

/// An address goes first: where a text reads as a bare address, the selector
/// is that interface, whatever the text reads as under the other two
/// syntaxes.
pub proof fn law_address_goes_first(
    address: IpAddress,
    url: Option<Seq<char>>,
    block: Option<(IpAddress, u8)>,
)
    ensures
        classify(Some(address), url, block) == Some(Selector::BoundInterface(address)),
{
}

/// The precedence of the address decides real cases: every bare address
/// also reads as a block, the block of that address alone.
pub proof fn law_address_reads_as_block(text: Seq<char>)
    requires
        address_of_text(text) is Some,
    ensures
        block_of_text(text) == Some((address_of_text(text)->0, address_of_text(text)->0.spec_width())),
{
}

/// A bare address gives the interface with that address, and the selector is
/// written as the address is.
pub proof fn law_address_gives_interface(text: Seq<char>)
    requires
        address_of_text(text) is Some,
    ensures
        selector_of_text(text) == Some(Selector::BoundInterface(address_of_text(text)->0)),
        text_of_selector(selector_of_text(text)->0) == text_of_address(address_of_text(text)->0),
{
}

/// A URL that is no bare address gives the upstream proxy with that URL, and
/// the selector is written as the URL's serialization.
pub proof fn law_url_gives_upstream(text: Seq<char>)
    requires
        url_of_text(text) is Some,
        address_of_text(text) is None,
    ensures
        selector_of_text(text) == Some(Selector::UpstreamProxy(url_of_text(text)->0)),
        text_of_selector(selector_of_text(text)->0) == url_of_text(text)->0,
{
}

/// A block that is neither a bare address nor a URL gives that block, and
/// the selector is written as the block is.
pub proof fn law_block_gives_block(text: Seq<char>)
    requires
        block_of_text(text) is Some,
        address_of_text(text) is None,
        url_of_text(text) is None,
    ensures
        block_of_text(text) matches Some((a, n)) && selector_of_text(text) == Some(
            Selector::BoundBlock(a, n),
        ) && text_of_selector(selector_of_text(text)->0) == text_of_block(a, n),
{
}

/// A text stands for no selector exactly when neither the URL syntax nor
/// the block syntax reads it.
pub proof fn law_unreadable_text(text: Seq<char>)
    ensures
        selector_of_text(text) is None <==> (url_of_text(text) is None && block_of_text(text)
            is None),
{
}

/// Reading keeps nothing but the payload of the syntax that decided: the
/// variant of the selector tells which of the three it was.
pub proof fn law_variant_tells_syntax(text: Seq<char>)
    requires
        selector_of_text(text) is Some,
    ensures
        selector_of_text(text)->0 is BoundInterface <==> address_of_text(text) is Some,
        selector_of_text(text)->0 is UpstreamProxy <==> (address_of_text(text) is None
            && url_of_text(text) is Some),
        selector_of_text(text)->0 is BoundBlock <==> (address_of_text(text) is None
            && url_of_text(text) is None),
{
}

/// Reading a text and writing the selector gives the text back exactly
/// where the text is canonical in the syntax that decides: a canonical
/// address; a canonical URL that is no bare address; a canonical block that
/// is no URL.
pub proof fn law_canonical_text_round_trips(text: Seq<char>)
    ensures
        (selector_of_text(text) matches Some(selector) && text_of_selector(selector) == text) <==> (
        is_canonical_address(text) || (is_canonical_url(text) && address_of_text(text) is None)
            || (is_canonical_block(text) && url_of_text(text) is None)),
{
}

} // verus!
