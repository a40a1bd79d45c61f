//! The network address of a device: an IPv4 or an IPv6 address, read from
//! the text in which the device announces it.

use vstd::prelude::*;
use crate::ipv4::{ipv4_of, lemma_ipv4_roundtrip, Ipv4Address};
use crate::ipv6::{ipv6_of, lemma_ipv6_roundtrip, Ipv6Address};

verus! {

/// The address of a device.
#[derive(Clone, Copy, Debug, PartialEq, Eq, Structural)]
pub enum DeviceAddress {
    V4(Ipv4Address),
    V6(Ipv6Address),
}

/// The address that a text writes, if it writes one: an IPv4 address where
/// the text is a dotted quad, else an IPv6 address where it writes one.
pub open spec fn address_of(text: Seq<char>) -> Option<DeviceAddress> {
    match ipv4_of(text) {
        Some(quad) => Some(DeviceAddress::V4(quad)),
        None => match ipv6_of(text) {
            Some(groups) => Some(DeviceAddress::V6(groups)),
            None => None,
        },
    }
}

/// A text that writes an IPv4 address is the text of that address.
pub proof fn lemma_dotted_quad_is_kept(text: Seq<char>)
    ensures
        address_of(text) matches Some(DeviceAddress::V4(quad)) ==> DeviceAddress::V4(quad).text()
            == text,
{
}

/// Reading the text of an address gives the address back.
pub proof fn lemma_address_roundtrip(x: DeviceAddress)
    ensures
        address_of(x.text()) == Some(x),
{
    match x {
        DeviceAddress::V4(quad) => {
            lemma_ipv4_roundtrip(quad);
        },
        DeviceAddress::V6(groups) => {
            lemma_ipv6_roundtrip(groups);
        },
    }
}

/// Two addresses with the same text are the same address.
pub proof fn lemma_text_injective(x: DeviceAddress, y: DeviceAddress)
    requires
        x.text() == y.text(),
    ensures
        x == y,
{
    lemma_address_roundtrip(x);
    lemma_address_roundtrip(y);
}

impl DeviceAddress {
    /// The address in text: a dotted quad, or hexadecimal groups joined by
    /// colons in their shortest form.
    pub open spec fn text(self) -> Seq<char> {
        match self {
            DeviceAddress::V4(quad) => quad.text(),
            DeviceAddress::V6(groups) => groups.text(),
        }
    }

    /// Reads an address from its text. Any text that writes none gives
    /// `None`.
    pub fn parse(text: &[char]) -> (r: Option<DeviceAddress>)
        ensures
            r == address_of(text@),
            r matches Some(DeviceAddress::V4(quad)) ==> quad.text() == text@,
    {
        match Ipv4Address::parse(text) {
            Some(quad) => Some(DeviceAddress::V4(quad)),
            None => match Ipv6Address::parse(text) {
                Some(groups) => Some(DeviceAddress::V6(groups)),
                None => None,
            },
        }
    }

    /// The address in text.
    pub fn to_string(&self) -> (s: String)
        ensures
            s@ == self.text(),
    {
        match self {
            DeviceAddress::V4(quad) => quad.to_string(),
            DeviceAddress::V6(groups) => groups.to_string(),
        }
    }
}

} // verus!
