//! The URL of an upstream proxy.

use crate::outside::{parse_url, url_of_text};
use crate::view::model;
use vstd::prelude::*;

verus! {

/// A URL, held as its serialization. The scheme is not looked at.
#[derive(Debug, PartialEq, Eq)]
pub struct ProxyUrl {
    serialization: String,
}

impl View for ProxyUrl {
    type V = Seq<char>;

    /// The serialization.
    closed spec fn view(&self) -> Seq<char> {
        self.serialization@
    }
}

impl Clone for ProxyUrl {
    fn clone(&self) -> (url: ProxyUrl)
        ensures
            url@ == self@,
    {
        ProxyUrl { serialization: self.serialization.clone() }
    }
}

impl ProxyUrl {
    /// Takes a serialization as it stands.
    pub fn new(serialization: String) -> (url: ProxyUrl)
        ensures
            url@ == serialization@,
    {
        ProxyUrl { serialization }
    }

    /// Reads an absolute URL and keeps its serialization.
    pub fn parse(text: &str) -> (r: Option<ProxyUrl>)
        ensures
            model(r) == url_of_text(text@),
    {
        match parse_url(text) {
            Some(serialization) => Some(ProxyUrl { serialization }),
            None => None,
        }
    }

    /// The serialization.
    pub fn as_str(&self) -> (s: &str)
        ensures
            s@ == self@,
    {
        self.serialization.as_str()
    }
}

} // verus!
