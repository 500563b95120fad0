//! The outbound message-transfer protocol.
//!
//! A transfer turns a descriptor — command identifier, optional metadata,
//! optional payload — into one control request followed by zero, one or two
//! raw content streams, each separately acknowledged.  The streaming itself
//! is the shell's work; the strict sequence between the phases is the state
//! machine [`SendFlow`], verified here.

use vstd::prelude::*;

use crate::err::Error;
use crate::text::dec_str;
use crate::text::lemma_dec_str_digits;
use crate::text::lemma_digits_value_ok;
use crate::text::u64_to_string;
use crate::types::AppChannel;
use crate::wire::bytes_len;
use crate::wire::bytes_view;
use crate::wire::empty_fields;
use crate::wire::params_get_str;
use crate::wire::params_map;
use crate::wire::params_size;
use crate::wire::params_wire_size;
use crate::wire::tg_add_str;
use crate::wire::tg_new;
use crate::wire::tg_params;
use crate::wire::tg_topic;
use crate::wire::value_ok;

verus! {

/// One content section of an outbound message.
pub enum InputType {
    /// An in-memory key/value parameter set, serialized by the wire library.
    Params(blather::Params),
    /// A file reference: the path the shell streams from, and the file's
    /// size in bytes as the caller probed it.
    File(String, u64),
    /// An owned in-memory buffer.
    VecBuf(Vec<u8>),
    /// An immutable shared in-memory buffer.
    Bytes(bytes::Bytes),
}

/// The size in bytes of a content section before transmission.
pub open spec fn input_size(it: InputType) -> int {
    match it {
        InputType::Params(p) => params_wire_size(p) as int,
        InputType::File(_, n) => n as int,
        InputType::VecBuf(v) => v.len() as int,
        InputType::Bytes(b) => bytes_view(b).len() as int,
    }
}

impl InputType {
    /// Compute the size of this content section.
    pub fn get_size(&self) -> (r: u64)
        ensures
            r == input_size(*self),
    {
        match self {
            InputType::Params(p) => params_size(p) as u64,
            InputType::File(_, n) => *n,
            InputType::VecBuf(v) => v.len() as u64,
            InputType::Bytes(b) => bytes_len(b) as u64,
        }
    }
}

/// The transmission context of an outbound message.
pub struct Transport {
    /// The logical application channel the message is sent on.
    pub ch: AppChannel,
}

/// An outbound message descriptor: command identifier (`0` meaning
/// unspecified), optional metadata and optional payload.  A descriptor is
/// consumed entirely by one transfer and not reused.
pub struct MsgInfo {
    /// Command identifier; `0` means unspecified.
    pub cmd: u32,
    /// Optional metadata section.
    pub meta: Option<InputType>,
    /// Optional payload section.
    pub payload: Option<InputType>,
}

/// The declared size of an optional section: `0` when absent.
pub open spec fn section_size(s: Option<InputType>) -> int {
    match s {
        Option::Some(it) => input_size(it),
        Option::None => 0,
    }
}

impl MsgInfo {
    /// Compute the metadata size, which must fit a 32-bit length; a larger
    /// metadata section is rejected as bad input.
    pub fn get_meta_size(&self) -> (r: Result<u32, Error>)
        ensures
            r matches Ok(n) ==> n == section_size(self.meta),
            r is Ok <==> section_size(self.meta) <= u32::MAX,
            r matches Err(e) ==> e is BadInput,
    {
        let sz: u64 = match &self.meta {
            Some(meta) => meta.get_size(),
            None => 0,
        };
        if sz > 0xffff_ffff {
            Err(Error::BadInput("Metadata size exceeds the 32-bit length limit".to_owned()))
        } else {
            Ok(sz as u32)
        }
    }

    /// Compute the payload size, which may use the full 64-bit length.
    pub fn get_payload_size(&self) -> (r: u64)
        ensures
            r == section_size(self.payload),
    {
        match &self.payload {
            Some(payload) => payload.get_size(),
            None => 0,
        }
    }
}

/// The string form of a channel reference, as it travels in the `_Ch` field.
pub open spec fn ch_str(ch: AppChannel) -> Seq<char> {
    match ch {
        AppChannel::Num(n) => dec_str(n as nat),
        AppChannel::Name(s) => s@,
    }
}

/// The fields of a `Msg` control request: the logical channel, the command
/// identifier when not the default, and each declared length when non-zero.
pub open spec fn msg_fields(ch: Seq<char>, cmd: u32, metalen: u32, payloadlen: u64) -> Map<
    Seq<char>,
    Seq<char>,
> {
    let m = empty_fields().insert("_Ch"@, ch);
    let m = if cmd != 0 {
        m.insert("Cmd"@, dec_str(cmd as nat))
    } else {
        m
    };
    let m = if metalen != 0 {
        m.insert("MetaLen"@, dec_str(metalen as nat))
    } else {
        m
    };
    if payloadlen != 0 {
        m.insert("Len"@, dec_str(payloadlen as nat))
    } else {
        m
    }
}

/// Build the `Msg` control request for a descriptor.
pub fn msg_request(xfer: &Transport, mi: &MsgInfo) -> (r: Result<blather::Telegram, Error>)
    ensures
        r matches Ok(t) ==> tg_topic(t) == "Msg"@ && tg_params(t) == msg_fields(
            ch_str(xfer.ch),
            mi.cmd,
            section_size(mi.meta) as u32,
            section_size(mi.payload) as u64,
        ) && section_size(mi.meta) <= u32::MAX,
        r is Ok <==> section_size(mi.meta) <= u32::MAX && value_ok(ch_str(xfer.ch)),
{
    proof {
        reveal_strlit("Msg");
        reveal_strlit("_Ch");
        reveal_strlit("Cmd");
        reveal_strlit("MetaLen");
        reveal_strlit("Len");
    }
    let metalen = mi.get_meta_size()?;
    let payloadlen = mi.get_payload_size();

    let mut tg = tg_new("Msg")?;
    let ch = xfer.ch.to_string();
    proof {
        if xfer.ch is Num {
            lemma_dec_str_digits(xfer.ch->Num_0 as nat);
            lemma_digits_value_ok(ch@);
        }
    }
    tg_add_str(&mut tg, "_Ch", ch.as_str())?;
    if mi.cmd != 0 {
        let s = u64_to_string(mi.cmd as u64);
        proof {
            lemma_dec_str_digits(mi.cmd as nat);
            lemma_digits_value_ok(s@);
        }
        tg_add_str(&mut tg, "Cmd", s.as_str())?;
    }
    if metalen != 0 {
        let s = u64_to_string(metalen as u64);
        proof {
            lemma_dec_str_digits(metalen as nat);
            lemma_digits_value_ok(s@);
        }
        tg_add_str(&mut tg, "MetaLen", s.as_str())?;
    }
    if payloadlen != 0 {
        let s = u64_to_string(payloadlen);
        proof {
            lemma_dec_str_digits(payloadlen as nat);
            lemma_digits_value_ok(s@);
        }
        tg_add_str(&mut tg, "Len", s.as_str())?;
    }
    Ok(tg)
}

/// The position of one outbound transfer between acknowledgements.
pub enum SendState {
    /// The control request was sent; its reply carries the transfer
    /// identifier.
    AwaitControlReply,
    /// The metadata section is being streamed; its acknowledgement is next.
    AwaitMetaAck,
    /// The payload section is being streamed; its acknowledgement is next.
    AwaitPayloadAck,
    /// The transfer completed.
    Finished,
    /// The transfer was aborted.
    Failed,
}

/// One instruction of the transfer to the caller.
pub enum SendStep {
    /// Stream the metadata section as one raw content frame, then await the
    /// acknowledgement.
    SendMetadata,
    /// Stream the payload section as one raw content frame, then await the
    /// acknowledgement.
    SendPayload,
    /// The transfer is complete; this is the server-assigned transfer
    /// identifier.
    Done(String),
}

/// One outbound transfer in progress.
pub struct SendFlow {
    /// Whether the descriptor declares a metadata section.
    pub has_meta: bool,
    /// Whether the descriptor declares a payload section.
    pub has_payload: bool,
    /// The transfer identifier, once the server has assigned one.
    pub xferid: Option<String>,
    /// The current position of the transfer.
    pub state: SendState,
}

/// The well-formedness of a transfer between acknowledgements: once a
/// section is being streamed, the transfer identifier is on record.  Every
/// flow this module hands out satisfies it, and every acknowledgement
/// preserves it.
pub open spec fn send_wf(f: SendFlow) -> bool {
    (f.state is AwaitMetaAck || f.state is AwaitPayloadAck) ==> f.xferid is Some
}

/// The step fails with a bad-state error.
pub open spec fn send_fails_state(r: Result<SendStep, Error>) -> bool {
    r matches Err(e) && e is BadState
}

/// The step reports the transfer done under this identifier.
pub open spec fn send_done(r: Result<SendStep, Error>, id: Seq<char>) -> bool {
    r matches Ok(s) && s matches SendStep::Done(x) && x@ == id
}

impl SendFlow {
    /// Start one transfer: build the control request for the descriptor.
    /// The caller sends it, awaits the classified reply and hands it to
    /// [`SendFlow::on_reply`].
    pub fn begin(xfer: &Transport, mi: &MsgInfo) -> (r: (SendFlow, Result<blather::Telegram, Error>))
        ensures
            r.0.has_meta == (mi.meta is Some),
            r.0.has_payload == (mi.payload is Some),
            r.0.xferid is None,
            r.1 matches Ok(t) ==> tg_topic(t) == "Msg"@ && tg_params(t) == msg_fields(
                ch_str(xfer.ch),
                mi.cmd,
                section_size(mi.meta) as u32,
                section_size(mi.payload) as u64,
            ) && r.0.state is AwaitControlReply,
            r.1 is Ok <==> section_size(mi.meta) <= u32::MAX && value_ok(ch_str(xfer.ch)),
            r.1 is Err ==> r.0.state is Failed,
            send_wf(r.0),
    {
        let has_meta = mi.meta.is_some();
        let has_payload = mi.payload.is_some();
        match msg_request(xfer, mi) {
            Ok(tg) => (
                SendFlow { has_meta, has_payload, xferid: None, state: SendState::AwaitControlReply },
                Ok(tg),
            ),
            Err(e) => (
                SendFlow { has_meta, has_payload, xferid: None, state: SendState::Failed },
                Err(e),
            ),
        }
    }

    /// Consume one classified acknowledgement and hand out the next
    /// instruction.
    ///
    /// A failed exchange aborts the whole transfer at once: in particular,
    /// after a failed metadata acknowledgement the payload is never streamed,
    /// and an aborted or finished transfer accepts no further replies.  The
    /// control reply must carry the transfer identifier; its absence is a
    /// missing-data error, since the caller cannot recover the identifier any
    /// other way.  The identifier is reported only after every declared
    /// section has been acknowledged.
    pub fn on_reply(&mut self, reply: Result<blather::Params, Error>) -> (r: Result<SendStep, Error>)
        ensures
            final(self).has_meta == old(self).has_meta,
            final(self).has_payload == old(self).has_payload,
            send_wf(*old(self)) ==> send_wf(*final(self)),
            reply matches Err(e) ==> r == Result::<SendStep, Error>::Err(e) && final(self).state is Failed,
            old(self).state is AwaitControlReply ==> (match reply {
                Result::Ok(p) => if params_map(p).contains_key("XferId"@) {
                    final(self).xferid matches Some(x) && x@ == params_map(p)["XferId"@] && (
                    if old(self).has_meta {
                        r matches Ok(s) && s is SendMetadata && final(self).state is AwaitMetaAck
                    } else if old(self).has_payload {
                        r matches Ok(s) && s is SendPayload && final(self).state is AwaitPayloadAck
                    } else {
                        send_done(r, params_map(p)["XferId"@]) && final(self).state is Finished
                    })
                } else {
                    r matches Err(e) && e is MissingData && final(self).state is Failed
                },
                Result::Err(e) => final(self).state is Failed,
            }),
            old(self).state is AwaitMetaAck ==> (match reply {
                Result::Ok(p) => final(self).xferid == old(self).xferid && (match old(self).xferid {
                    Option::Some(x) => if old(self).has_payload {
                        r matches Ok(s) && s is SendPayload && final(self).state is AwaitPayloadAck
                    } else {
                        send_done(r, x@) && final(self).state is Finished
                    },
                    Option::None => send_fails_state(r) && final(self).state is Failed,
                }),
                Result::Err(e) => final(self).state is Failed,
            }),
            old(self).state is AwaitPayloadAck ==> (match reply {
                Result::Ok(p) => final(self).xferid == old(self).xferid && (match old(self).xferid {
                    Option::Some(x) => send_done(r, x@) && final(self).state is Finished,
                    Option::None => send_fails_state(r) && final(self).state is Failed,
                }),
                Result::Err(e) => final(self).state is Failed,
            }),
            old(self).state is Finished ==> (reply is Ok ==> send_fails_state(r)) && final(self).state is Failed,
            old(self).state is Failed ==> (reply is Ok ==> send_fails_state(r)) && final(self).state is Failed,
    {
        let reply = match reply {
            Ok(p) => p,
            Err(e) => {
                self.state = SendState::Failed;
                return Err(e);
            },
        };
        match &self.state {
            SendState::AwaitControlReply => {
                let id = match params_get_str(&reply, "XferId") {
                    Some(x) => x.to_owned(),
                    None => {
                        self.state = SendState::Failed;
                        return Err(
                            Error::miss_data(
                                "Missing expected transfer identifier from server reply",
                            ),
                        );
                    },
                };
                if self.has_meta {
                    self.xferid = Some(id);
                    self.state = SendState::AwaitMetaAck;
                    Ok(SendStep::SendMetadata)
                } else if self.has_payload {
                    self.xferid = Some(id);
                    self.state = SendState::AwaitPayloadAck;
                    Ok(SendStep::SendPayload)
                } else {
                    self.xferid = Some(id.clone());
                    self.state = SendState::Finished;
                    Ok(SendStep::Done(id))
                }
            },
            SendState::AwaitMetaAck => {
                match &self.xferid {
                    Some(x) => {
                        if self.has_payload {
                            self.state = SendState::AwaitPayloadAck;
                            Ok(SendStep::SendPayload)
                        } else {
                            let id = x.clone();
                            self.state = SendState::Finished;
                            Ok(SendStep::Done(id))
                        }
                    },
                    None => {
                        self.state = SendState::Failed;
                        Err(Error::bad_state("No transfer identifier on record"))
                    },
                }
            },
            SendState::AwaitPayloadAck => {
                match &self.xferid {
                    Some(x) => {
                        let id = x.clone();
                        self.state = SendState::Finished;
                        Ok(SendStep::Done(id))
                    },
                    None => {
                        self.state = SendState::Failed;
                        Err(Error::bad_state("No transfer identifier on record"))
                    },
                }
            },
            _ => {
                self.state = SendState::Failed;
                Err(Error::bad_state("Unexpected transfer acknowledgement"))
            },
        }
    }
}

} // verus!
