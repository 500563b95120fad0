//! Types that are used to describe a server's data diode link properties.

use vstd::prelude::*;

use crate::err::Error;
use crate::text::str_eq;

verus! {

/// The link-layer protocol of the data diode link.
#[derive(Debug, PartialEq, Eq, Structural)]
pub enum Protocol {
    /// Raw Ethernet frames.
    Ethernet,
    /// UDP datagrams.
    UDP,
}

impl Protocol {
    /// The lower-case name of the protocol.
    pub fn to_string(&self) -> (r: String)
        ensures
            r@ == (match self {
                Protocol::Ethernet => "ethernet"@,
                Protocol::UDP => "udp"@,
            }),
    {
        match self {
            Protocol::Ethernet => "ethernet".to_owned(),
            Protocol::UDP => "udp".to_owned(),
        }
    }

    /// Parse the lower-case name of a protocol; any other string is a
    /// bad-input error.
    pub fn parse(s: &str) -> (r: Result<Protocol, Error>)
        ensures
            s@ == "ethernet"@ ==> (r matches Ok(t) && t == Protocol::Ethernet),
            s@ == "udp"@ ==> (r matches Ok(t) && t == Protocol::UDP),
            (s@ != "ethernet"@ && s@ != "udp"@) ==> (r matches Err(e) && e is BadInput),
    {
        proof {
            reveal_strlit("ethernet");
            reveal_strlit("udp");
            assert("ethernet"@.len() != "udp"@.len());
        }
        if str_eq(s, "ethernet") {
            Ok(Protocol::Ethernet)
        } else if str_eq(s, "udp") {
            Ok(Protocol::UDP)
        } else {
            Err(Error::BadInput("Unknown link protocol".to_owned()))
        }
    }
}

impl core::str::FromStr for Protocol {
    type Err = Error;

    fn from_str(s: &str) -> Result<Self, Self::Err> {
        Protocol::parse(s)
    }
}

/// The implementation that drives the data diode link protocol.
#[derive(Debug, PartialEq, Eq, Structural)]
pub enum ProtImpl {
    /// The packet-capture based implementation.
    Pcap,
    /// The generic implementation.
    Generic,
}

impl ProtImpl {
    /// The lower-case name of the implementation.
    pub fn to_string(&self) -> (r: String)
        ensures
            r@ == (match self {
                ProtImpl::Pcap => "pcap"@,
                ProtImpl::Generic => "generic"@,
            }),
    {
        match self {
            ProtImpl::Pcap => "pcap".to_owned(),
            ProtImpl::Generic => "generic".to_owned(),
        }
    }

    /// Parse the lower-case name of an implementation; any other string is a
    /// bad-input error.
    pub fn parse(s: &str) -> (r: Result<ProtImpl, Error>)
        ensures
            s@ == "pcap"@ ==> (r matches Ok(t) && t == ProtImpl::Pcap),
            s@ == "generic"@ ==> (r matches Ok(t) && t == ProtImpl::Generic),
            (s@ != "pcap"@ && s@ != "generic"@) ==> (r matches Err(e) && e is BadInput),
    {
        proof {
            reveal_strlit("pcap");
            reveal_strlit("generic");
            assert("pcap"@.len() != "generic"@.len());
        }
        if str_eq(s, "pcap") {
            Ok(ProtImpl::Pcap)
        } else if str_eq(s, "generic") {
            Ok(ProtImpl::Generic)
        } else {
            Err(Error::BadInput("Unknown link protocol implementation".to_owned()))
        }
    }
}

impl core::str::FromStr for ProtImpl {
    type Err = Error;

    fn from_str(s: &str) -> Result<Self, Self::Err> {
        ProtImpl::parse(s)
    }
}

} // verus!
