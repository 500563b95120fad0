//! Types that are used to describe server properties.

pub mod ddlnk;

use vstd::prelude::*;

use crate::err::Error;
use crate::text::str_eq;

verus! {

/// Denote whether a node is on the sender or receiver side of the hardware
/// data diode.
#[derive(Debug, PartialEq, Eq, Structural)]
pub enum Type {
    /// Sending node.
    Sender,
    /// Receiving node.
    Receiver,
}

impl Type {
    /// The lower-case name of the node type.
    pub fn to_string(&self) -> (r: String)
        ensures
            r@ == (match self {
                Type::Sender => "sender"@,
                Type::Receiver => "receiver"@,
            }),
    {
        match self {
            Type::Sender => "sender".to_owned(),
            Type::Receiver => "receiver".to_owned(),
        }
    }

    /// Parse the lower-case name of a node type; any other string is a
    /// bad-input error.
    pub fn parse(s: &str) -> (r: Result<Type, Error>)
        ensures
            s@ == "sender"@ ==> (r matches Ok(t) && t == Type::Sender),
            s@ == "receiver"@ ==> (r matches Ok(t) && t == Type::Receiver),
            (s@ != "sender"@ && s@ != "receiver"@) ==> (r matches Err(e) && e is BadInput),
    {
        proof {
            reveal_strlit("sender");
            reveal_strlit("receiver");
            assert("sender"@.len() != "receiver"@.len());
        }
        if str_eq(s, "sender") {
            Ok(Type::Sender)
        } else if str_eq(s, "receiver") {
            Ok(Type::Receiver)
        } else {
            Err(Error::BadInput("Unknown node type".to_owned()))
        }
    }
}

impl core::str::FromStr for Type {
    type Err = Error;

    fn from_str(s: &str) -> Result<Self, Self::Err> {
        Type::parse(s)
    }
}

} // verus!
