//! Connection addressing and classification of request/reply exchanges.
//!
//! The transport itself (TCP or local domain socket) and the framed stream
//! around it are driven by the unverified shell; the decisions — how an
//! address string selects a transport, and how a received frame is classified
//! as a success, a server failure or a protocol violation — stand here.

use vstd::prelude::*;

use crate::err::Error;
use crate::text::parse_i64;
use crate::text::signed_val;
use crate::text::str_eq;
use crate::text::valid_signed;
use crate::wire::params_get_str;
use crate::wire::params_map;
use crate::wire::tg_get_topic;
use crate::wire::tg_into_params;
use crate::wire::tg_params;
use crate::wire::tg_topic;

verus! {

/// Protocol selection: a TCP socket address (`<host>:<port>`) or a local
/// domain socket path.
pub enum ProtAddr {
    /// Connect over TCP/IP to the given `<host>:<port>` address.
    Tcp(String),
    /// Connect over a local domain socket at the given path.
    Uds(String),
}

/// Whether the address string holds a path separator.
pub open spec fn has_slash(s: Seq<char>) -> bool {
    exists|i: int| 0 <= i < s.len() && s[i] == '/'
}

impl ProtAddr {
    /// Parse an address string: one that contains a path separator is a
    /// local-domain-socket path, any other is a TCP `<host>:<port>` pair.
    pub fn parse(addr: &str) -> (r: ProtAddr)
        ensures
            has_slash(addr@) ==> (r matches ProtAddr::Uds(p) && p@ == addr@),
            !has_slash(addr@) ==> (r matches ProtAddr::Tcp(a) && a@ == addr@),
    {
        let len = addr.unicode_len();
        let mut i: usize = 0;
        while i < len
            invariant
                0 <= i <= len,
                len == addr@.len(),
                forall|j: int| 0 <= j < i ==> addr@[j] != '/',
            decreases len - i,
        {
            if addr.get_char(i) == '/' {
                return ProtAddr::Uds(addr.to_owned());
            }
            i += 1;
        }
        ProtAddr::Tcp(addr.to_owned())
    }

    /// The address string this value was parsed from.
    pub fn to_string(&self) -> (r: String)
        ensures
            r@ == (match self {
                ProtAddr::Tcp(a) => a@,
                ProtAddr::Uds(p) => p@,
            }),
    {
        match self {
            ProtAddr::Tcp(a) => a.clone(),
            ProtAddr::Uds(p) => p.clone(),
        }
    }
}

/// One frame received while a reply was awaited, as the shell hands it in:
/// a complete telegram, some other (content) frame, or a closed stream.
pub enum FrameEvent {
    /// A complete telegram arrived.
    Control(blather::Telegram),
    /// A non-telegram frame arrived where a telegram was expected.
    Content,
    /// The stream ended.
    Closed,
}

/// Classify the frame received in reply to a request.
///
/// Every reply is classified solely by topic: `Ok` carries the result
/// parameters, `Fail` carries the server's error parameters, any other topic
/// or a non-telegram frame is a protocol violation, and a closed stream is a
/// disconnection.
pub fn classify_reply(ev: FrameEvent) -> (r: Result<blather::Params, Error>)
    ensures
        ev matches FrameEvent::Control(tg) ==> (tg_topic(tg) == "Ok"@ ==> (r matches Ok(p)
            && params_map(p) == tg_params(tg))),
        ev matches FrameEvent::Control(tg) ==> (tg_topic(tg) == "Fail"@ ==> (r matches Err(e)
            && e matches Error::ServerError(p) && params_map(p) == tg_params(tg))),
        ev matches FrameEvent::Control(tg) ==> ((tg_topic(tg) != "Ok"@ && tg_topic(tg) != "Fail"@)
            ==> (r matches Err(e) && e is BadState)),
        ev is Content ==> (r matches Err(e) && e is BadState),
        ev is Closed ==> (r matches Err(e) && e is Disconnected),
{
    proof {
        reveal_strlit("Ok");
        reveal_strlit("Fail");
        assert("Ok"@.len() != "Fail"@.len());
    }
    match ev {
        FrameEvent::Control(tg) => {
            let topic = tg_get_topic(&tg);
            if str_eq(topic, "Ok") {
                Ok(tg_into_params(tg))
            } else if str_eq(topic, "Fail") {
                Err(Error::ServerError(tg_into_params(tg)))
            } else {
                Err(Error::bad_state("Unexpected reply from server."))
            }
        },
        FrameEvent::Content => Err(Error::bad_state("Unexpected codec input type.")),
        FrameEvent::Closed => Err(Error::Disconnected),
    }
}

/// Build a `WhoAmI` request, which asks for the current owner of the
/// connection.
pub fn whoami_request() -> (r: Result<blather::Telegram, Error>)
    ensures
        r matches Ok(t) && tg_topic(t) == "WhoAmI"@ && tg_params(t) == crate::wire::empty_fields(),
{
    proof {
        reveal_strlit("WhoAmI");
    }
    crate::wire::tg_new("WhoAmI")
}

/// The owner of a connection, as the server reports it.
#[derive(Debug)]
pub struct WhoAmI {
    /// Numeric account identifier.
    pub id: i64,
    /// Account name.
    pub name: String,
}

/// Parse the reply to a `WhoAmI` request.
///
/// The reply must carry a numeric `Id` and a `Name`; a missing field is a
/// missing-data error, a non-numeric `Id` a parse error.
pub fn parse_whoami(p: &blather::Params) -> (r: Result<WhoAmI, Error>)
    ensures
        r matches Ok(w) ==> (params_map(*p).contains_key("Id"@) && valid_signed(
            params_map(*p)["Id"@],
        ) && w.id == signed_val(params_map(*p)["Id"@]) && params_map(*p).contains_key("Name"@)
            && w.name@ == params_map(*p)["Name"@]),
        (r matches Err(e) && e is MissingData) ==> !params_map(*p).contains_key("Id"@)
            || !params_map(*p).contains_key("Name"@),
        (r matches Err(e) && e is Parse) ==> !(valid_signed(params_map(*p)["Id"@])
            && i64::MIN <= signed_val(params_map(*p)["Id"@]) <= i64::MAX),
        r is Err ==> (r matches Err(e) && (e is MissingData || e is Parse)),
        (!params_map(*p).contains_key("Id"@) || !params_map(*p).contains_key("Name"@)) ==> r is Err,
{
    let id_str = match params_get_str(p, "Id") {
        Some(v) => v,
        None => {
            return Err(Error::miss_data("Id"));
        },
    };
    let id = match parse_i64(id_str) {
        Some(n) => n,
        None => {
            return Err(Error::parse("Id"));
        },
    };
    let name = match params_get_str(p, "Name") {
        Some(v) => v,
        None => {
            return Err(Error::miss_data("Name"));
        },
    };
    Ok(WhoAmI { id, name: name.to_owned() })
}

} // verus!
