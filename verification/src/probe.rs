//! Core node inspection: the request and reply parsing of the
//! node-capability probe.

use vstd::prelude::*;

use crate::err::Error;
use crate::types::node::ddlnk::ProtImpl;
use crate::types::node::ddlnk::Protocol;
use crate::types::node::Type;
use crate::wire::empty_fields;
use crate::wire::params_get_str;
use crate::wire::params_map;
use crate::wire::tg_new;
use crate::wire::tg_params;
use crate::wire::tg_topic;

verus! {

/// The data diode link properties of a node.
#[derive(Debug)]
pub struct DDLinkInfo {
    /// The name of the link engine.
    pub engine: String,
    /// The link-layer protocol.
    pub protocol: Protocol,
    /// The implementation driving the protocol.
    pub protimpl: ProtImpl,
}

/// The static properties of a node.
#[derive(Debug)]
pub struct NodeInfo {
    /// The node's software version.
    pub version: String,
    /// The name of the operating system the node runs on.
    pub os_name: String,
    /// Which side of the data diode the node is on.
    pub nodetype: Type,
    /// The node's data diode link properties.
    pub ddlnk: DDLinkInfo,
}

/// Build a `GetNodeInfo` request.
pub fn nodeinfo_request() -> (r: Result<blather::Telegram, Error>)
    ensures
        r matches Ok(t) && tg_topic(t) == "GetNodeInfo"@ && tg_params(t) == empty_fields(),
{
    proof {
        reveal_strlit("GetNodeInfo");
    }
    tg_new("GetNodeInfo")
}

/// Whether a probe reply holds every field, with recognized names for the
/// node type, protocol and implementation.
pub open spec fn nodeinfo_parseable(m: Map<Seq<char>, Seq<char>>) -> bool {
    &&& m.contains_key("ddmw.node"@) && (m["ddmw.node"@] == "sender"@ || m["ddmw.node"@]
        == "receiver"@)
    &&& m.contains_key("ddmw.version"@)
    &&& m.contains_key("os.name"@)
    &&& m.contains_key("ddmw.ddlnk.engine"@)
    &&& m.contains_key("ddmw.ddlink.protocol"@) && (m["ddmw.ddlink.protocol"@] == "ethernet"@
        || m["ddmw.ddlink.protocol"@] == "udp"@)
    &&& m.contains_key("ddmw.ddlink.protimpl"@) && (m["ddmw.ddlink.protimpl"@] == "pcap"@
        || m["ddmw.ddlink.protimpl"@] == "generic"@)
}

/// Parse the reply to a `GetNodeInfo` request.  Every field must be present;
/// a missing one is a missing-data error, and an unknown node type, protocol
/// or implementation name is a bad-input error.
pub fn parse_nodeinfo(p: &blather::Params) -> (r: Result<NodeInfo, Error>)
    ensures
        nodeinfo_parseable(params_map(*p)) ==> r is Ok,
        r matches Ok(ni) ==> ({
            let m = params_map(*p);
            &&& m.contains_key("ddmw.node"@)
            &&& m.contains_key("ddmw.version"@) && ni.version@ == m["ddmw.version"@]
            &&& m.contains_key("os.name"@) && ni.os_name@ == m["os.name"@]
            &&& m.contains_key("ddmw.ddlnk.engine"@) && ni.ddlnk.engine@ == m["ddmw.ddlnk.engine"@]
            &&& m.contains_key("ddmw.ddlink.protocol"@)
            &&& m.contains_key("ddmw.ddlink.protimpl"@)
            &&& (ni.nodetype == Type::Sender <==> m["ddmw.node"@] == "sender"@)
            &&& (ni.ddlnk.protocol == Protocol::Ethernet <==> m["ddmw.ddlink.protocol"@]
                == "ethernet"@)
            &&& (ni.ddlnk.protimpl == ProtImpl::Pcap <==> m["ddmw.ddlink.protimpl"@] == "pcap"@)
        }),
        r matches Err(e) ==> (e is MissingData || e is BadInput),
{
    let nodetype = match params_get_str(p, "ddmw.node") {
        Some(s) => Type::parse(s)?,
        None => {
            return Err(Error::miss_data("ddmw.node not found"));
        },
    };
    let version = match params_get_str(p, "ddmw.version") {
        Some(s) => s.to_owned(),
        None => {
            return Err(Error::miss_data("ddmw.version not found"));
        },
    };
    let os_name = match params_get_str(p, "os.name") {
        Some(s) => s.to_owned(),
        None => {
            return Err(Error::miss_data("os.name not found"));
        },
    };
    let engine = match params_get_str(p, "ddmw.ddlnk.engine") {
        Some(s) => s.to_owned(),
        None => {
            return Err(Error::miss_data("ddmw.ddlnk.engine not found"));
        },
    };
    let protocol = match params_get_str(p, "ddmw.ddlink.protocol") {
        Some(s) => Protocol::parse(s)?,
        None => {
            return Err(Error::miss_data("ddmw.ddlink.protocol not found"));
        },
    };
    let protimpl = match params_get_str(p, "ddmw.ddlink.protimpl") {
        Some(s) => ProtImpl::parse(s)?,
        None => {
            return Err(Error::miss_data("ddmw.ddlink.protimpl not found"));
        },
    };
    Ok(NodeInfo { version, os_name, nodetype, ddlnk: DDLinkInfo { engine, protocol, protimpl } })
}

} // verus!
