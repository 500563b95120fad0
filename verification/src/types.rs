//! Various types used when communicating with core servers.

pub mod node;

use vstd::prelude::*;

use crate::text::dec_str;
use crate::text::dec_val;
use crate::text::parse_i64;
use crate::text::parse_u64;
use crate::text::signed_val;
use crate::text::u64_to_string;
use crate::text::unsigned_body;
use crate::text::valid_signed;
use crate::text::valid_unsigned;

verus! {

/// Reference an account, with the option to implicitly reference the owner
/// of the current connection.
pub enum OptObjRef {
    /// The account that owns the connection.
    Current,
    /// An account referenced by numeric identifier.
    Id(i64),
    /// An account referenced by name.
    Name(String),
}

/// Reference an account, either by numeric identifier or by name.
pub enum ObjRef {
    /// An account referenced by numeric identifier.
    Id(i64),
    /// An account referenced by name.
    Name(String),
}

impl ObjRef {
    /// Parse a reference: a string that reads as a signed number is a
    /// numeric identifier, any other is a name.
    pub fn parse(o: &str) -> (r: ObjRef)
        ensures
            (valid_signed(o@) && i64::MIN <= signed_val(o@) <= i64::MAX) ==> (r matches ObjRef::Id(
                n,
            ) && n == signed_val(o@)),
            !(valid_signed(o@) && i64::MIN <= signed_val(o@) <= i64::MAX) ==> (r
                matches ObjRef::Name(s) && s@ == o@),
    {
        match parse_i64(o) {
            Some(id) => ObjRef::Id(id),
            None => ObjRef::Name(o.to_owned()),
        }
    }
}

/// An application message channel, referenced by number or by name.
pub enum AppChannel {
    /// A channel referenced by its number.
    Num(u8),
    /// A channel referenced by its name.
    Name(String),
}

impl AppChannel {
    /// Parse a channel reference: a string that reads as a small unsigned
    /// number is a channel number, any other is a channel name.
    pub fn parse(ch: &str) -> (r: AppChannel)
        ensures
            (valid_unsigned(ch@) && dec_val(unsigned_body(ch@)) <= u8::MAX) ==> (r
                matches AppChannel::Num(n) && n == dec_val(unsigned_body(ch@))),
            !(valid_unsigned(ch@) && dec_val(unsigned_body(ch@)) <= u8::MAX) ==> (r
                matches AppChannel::Name(s) && s@ == ch@),
    {
        match parse_u64(ch) {
            Some(n) => {
                if n <= 255 {
                    AppChannel::Num(n as u8)
                } else {
                    AppChannel::Name(ch.to_owned())
                }
            },
            None => AppChannel::Name(ch.to_owned()),
        }
    }

    /// The string form of the channel reference: the decimal rendering of a
    /// number, a name as it is.
    pub fn to_string(&self) -> (r: String)
        ensures
            r@ == (match self {
                AppChannel::Num(n) => dec_str(*n as nat),
                AppChannel::Name(s) => s@,
            }),
    {
        match self {
            AppChannel::Num(n) => u64_to_string(*n as u64),
            AppChannel::Name(s) => s.clone(),
        }
    }
}

} // verus!
