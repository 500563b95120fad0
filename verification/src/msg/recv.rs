//! The inbound message-transfer protocol.
//!
//! Receiving one message means: await its control frame, consult the
//! application's negotiation callback on how each declared content section
//! should be materialized, drive the frame codec accordingly and collect the
//! results.  The codec and the awaits are the shell's work; the negotiation
//! decisions and the sequencing are the state machine [`RecvFlow`], verified
//! here.

use vstd::prelude::*;

use crate::conn::FrameEvent;
use crate::err::Error;
use crate::text::dec_str;
use crate::text::dec_val;
use crate::text::lemma_dec_str_digits;
use crate::text::lemma_digits_value_ok;
use crate::text::parse_u32;
use crate::text::parse_u64;
use crate::text::str_eq;
use crate::text::u64_to_string;
use crate::text::unsigned_body;
use crate::text::valid_unsigned;
use crate::wire::params_get_str;
use crate::wire::params_map;
use crate::wire::tg_add_str;
use crate::wire::tg_get_topic;
use crate::wire::tg_into_params;
use crate::wire::tg_new;
use crate::wire::tg_params;
use crate::wire::tg_topic;
use crate::wire::empty_fields;
use crate::wire::value_ok;

verus! {

/// A subscription channel, referenced by number or by name.
pub enum SubCh {
    /// A channel referenced by its number.
    Num(u8),
    /// A channel referenced by its name.
    Name(String),
}

/// Subscription parameters.
pub struct SubInfo {
    /// The channel to subscribe to.
    pub ch: SubCh,
}

/// The string form of a subscription channel, as it travels in the `Ch`
/// field.
pub open spec fn subch_str(ch: SubCh) -> Seq<char> {
    match ch {
        SubCh::Num(n) => dec_str(n as nat),
        SubCh::Name(s) => s@,
    }
}

/// Build a `Sub` request for an application message channel.
pub fn sub_request(subinfo: &SubInfo) -> (r: Result<blather::Telegram, Error>)
    ensures
        r matches Ok(t) ==> tg_topic(t) == "Sub"@ && tg_params(t) == empty_fields().insert(
            "Ch"@,
            subch_str(subinfo.ch),
        ),
        r is Ok <==> value_ok(subch_str(subinfo.ch)),
{
    proof {
        reveal_strlit("Sub");
        reveal_strlit("Ch");
    }
    let mut tg = tg_new("Sub")?;
    let ch = match &subinfo.ch {
        SubCh::Num(n) => {
            let s = u64_to_string(*n as u64);
            proof {
                lemma_dec_str_digits(*n as nat);
                lemma_digits_value_ok(s@);
            }
            s
        },
        SubCh::Name(nm) => nm.clone(),
    };
    tg_add_str(&mut tg, "Ch", ch.as_str())?;
    Ok(tg)
}

/// The requested materialization for one content section.
pub enum StoreType {
    /// Discard the content.
    Discard,
    /// Store it as an immutable in-memory buffer.
    Bytes,
    /// Store it as a mutable in-memory buffer.
    BytesMut,
    /// Parse it as a key/value parameter set.
    Params,
    /// Parse it as ordered key/value lines.
    KVLines,
    /// Write it to the file at this path.
    File(String),
}

/// The materialized content of one section.
pub enum Storage {
    /// The content as an immutable in-memory buffer.
    Bytes(bytes::Bytes),
    /// The content as a mutable in-memory buffer.
    BytesMut(bytes::BytesMut),
    /// The content parsed as a key/value parameter set.
    Params(blather::Params),
    /// The content parsed as ordered key/value lines.
    KVLines(blather::KVLines),
    /// A file at the location the application requested.
    File(String),
    /// A file at a location the remote peer dictated.  It is the
    /// application's responsibility to move or delete it.  Whether a
    /// peer-positioned local file should override the negotiated request is
    /// an open design question; the negotiated-only sequence implemented here
    /// never produces this variant.
    LocalFile(String),
    /// The content was discarded as requested; this signals completion, not
    /// content.
    Skipped,
}

/// A received message: command identifier and the materialized content of
/// each declared section.  A section's entry is present exactly when the
/// peer declared its length as non-zero.
pub struct Msg {
    /// Command identifier; `0` means unspecified.
    pub cmd: u32,
    /// The materialized metadata, when a metadata length was declared.
    pub meta: Option<Storage>,
    /// The materialized payload, when a payload length was declared.
    pub payload: Option<Storage>,
}

/// What the remote peer declared about an incoming message; handed to the
/// negotiation callback, and never trusted beyond that.
pub struct MsgInfo {
    /// Command identifier; `0` means unspecified.
    pub cmd: u32,
    /// Declared metadata length.
    pub metalen: u32,
    /// Declared payload length.
    pub payloadlen: u64,
}

/// Classify the control frame that announces an incoming message.
///
/// The announcement must carry the `Msg` topic; a `Fail` is surfaced as a
/// server error, anything else is a protocol violation, and a closed stream
/// is a disconnection.
pub fn classify_announcement(ev: FrameEvent) -> (r: Result<blather::Params, Error>)
    ensures
        ev matches FrameEvent::Control(tg) ==> (tg_topic(tg) == "Msg"@ ==> (r matches Ok(p)
            && params_map(p) == tg_params(tg))),
        ev matches FrameEvent::Control(tg) ==> (tg_topic(tg) == "Fail"@ ==> (r matches Err(e)
            && e matches Error::ServerError(p) && params_map(p) == tg_params(tg))),
        ev matches FrameEvent::Control(tg) ==> ((tg_topic(tg) != "Msg"@ && tg_topic(tg) != "Fail"@)
            ==> (r matches Err(e) && e is BadState)),
        ev is Content ==> (r matches Err(e) && e is BadState),
        ev is Closed ==> (r matches Err(e) && e is Disconnected),
{
    proof {
        reveal_strlit("Msg");
        reveal_strlit("Fail");
        assert("Msg"@.len() != "Fail"@.len());
    }
    match ev {
        FrameEvent::Control(tg) => {
            let topic = tg_get_topic(&tg);
            if str_eq(topic, "Msg") {
                Ok(tg_into_params(tg))
            } else if str_eq(topic, "Fail") {
                Err(Error::ServerError(tg_into_params(tg)))
            } else {
                Err(Error::bad_state("Unexpected reply from server."))
            }
        },
        FrameEvent::Content => Err(Error::bad_state("Unexpected codec input type.")),
        FrameEvent::Closed => Err(Error::Disconnected),
    }
}

/// How the frame codec is to be configured for one content section: the
/// requested materialization applied to the declared length.
pub enum ContentRequest {
    /// Discard this many bytes.
    Skip(u64),
    /// Expect this many bytes as an immutable buffer.
    Bytes(u64),
    /// Expect this many bytes as a mutable buffer.
    BytesMut(u64),
    /// Expect parsed key/value parameters.
    Params,
    /// Expect parsed key/value lines.
    KVLines,
    /// Expect this many bytes written to the file at this path.
    File(String, u64),
}

/// One content frame as the shell hands it in, already freed of the codec's
/// own types.
pub enum ContentEvent {
    /// The requested number of bytes was discarded.
    SkipDone,
    /// The content arrived as an immutable buffer.
    Bytes(bytes::Bytes),
    /// The content arrived as a mutable buffer.
    BytesMut(bytes::BytesMut),
    /// The content arrived parsed as parameters.
    Params(blather::Params),
    /// The content arrived parsed as key/value lines.
    KVLines(blather::KVLines),
    /// The content was written to the file at this path.
    File(String),
    /// Some other frame arrived.
    Other,
}

/// The codec configuration that one storage request and declared length call
/// for.
pub open spec fn request_for_spec(st: StoreType, len: u64) -> ContentRequest {
    match st {
        StoreType::Discard => ContentRequest::Skip(len),
        StoreType::Bytes => ContentRequest::Bytes(len),
        StoreType::BytesMut => ContentRequest::BytesMut(len),
        StoreType::Params => ContentRequest::Params,
        StoreType::KVLines => ContentRequest::KVLines,
        StoreType::File(p) => ContentRequest::File(p, len),
    }
}

/// The storage result that one content frame maps to; `None` for a frame
/// that no configuration of the codec would produce here.
pub open spec fn storage_of_spec(ce: ContentEvent) -> Option<Storage> {
    match ce {
        ContentEvent::SkipDone => Option::Some(Storage::Skipped),
        ContentEvent::Bytes(b) => Option::Some(Storage::Bytes(b)),
        ContentEvent::BytesMut(b) => Option::Some(Storage::BytesMut(b)),
        ContentEvent::Params(p) => Option::Some(Storage::Params(p)),
        ContentEvent::KVLines(k) => Option::Some(Storage::KVLines(k)),
        ContentEvent::File(p) => Option::Some(Storage::File(p)),
        ContentEvent::Other => Option::None,
    }
}

fn request_for(st: StoreType, len: u64) -> (r: ContentRequest)
    ensures
        r == request_for_spec(st, len),
{
    match st {
        StoreType::Discard => ContentRequest::Skip(len),
        StoreType::Bytes => ContentRequest::Bytes(len),
        StoreType::BytesMut => ContentRequest::BytesMut(len),
        StoreType::Params => ContentRequest::Params,
        StoreType::KVLines => ContentRequest::KVLines,
        StoreType::File(p) => ContentRequest::File(p, len),
    }
}

/// The declared length a field parses to: an absent field means `0`, and a
/// present one must be a decimal number within the width.
pub open spec fn len_of(m: Map<Seq<char>, Seq<char>>, key: Seq<char>, max: int) -> Option<int> {
    if !m.contains_key(key) {
        Option::Some(0)
    } else if valid_unsigned(m[key]) && dec_val(unsigned_body(m[key])) <= max {
        Option::Some(dec_val(unsigned_body(m[key])))
    } else {
        Option::None
    }
}

/// Parse a declared 32-bit field of a control frame; absence means `0`.
fn parse_field_u32(p: &blather::Params, key: &str) -> (r: Result<u32, Error>)
    ensures
        r matches Ok(n) ==> len_of(params_map(*p), key@, u32::MAX as int) == Option::Some(n as int),
        r matches Err(e) ==> len_of(params_map(*p), key@, u32::MAX as int) is None && e is Parse,
{
    match params_get_str(p, key) {
        Some(s) => {
            match parse_u32(s) {
                Some(n) => Ok(n),
                None => Err(Error::parse(key)),
            }
        },
        None => Ok(0),
    }
}

/// Parse a declared 64-bit field of a control frame; absence means `0`.
fn parse_field_u64(p: &blather::Params, key: &str) -> (r: Result<u64, Error>)
    ensures
        r matches Ok(n) ==> len_of(params_map(*p), key@, u64::MAX as int) == Option::Some(n as int),
        r matches Err(e) ==> len_of(params_map(*p), key@, u64::MAX as int) is None && e is Parse,
{
    match params_get_str(p, key) {
        Some(s) => {
            match parse_u64(s) {
                Some(n) => Ok(n),
                None => Err(Error::parse(key)),
            }
        },
        None => Ok(0),
    }
}

/// The position of one inbound transfer between events.
pub enum RecvState {
    /// The negotiation callback was asked for the storage requests.
    Negotiating,
    /// The metadata section is being materialized.
    ReadingMeta,
    /// The payload section is being materialized.
    ReadingPayload,
    /// The message is complete.
    Finished,
    /// The reception was aborted.
    Failed,
}

/// One inbound transfer in progress.
pub struct RecvFlow {
    /// The declared command identifier.
    pub cmd: u32,
    /// The declared metadata length.
    pub metalen: u32,
    /// The declared payload length.
    pub payloadlen: u64,
    /// The requested materialization of the payload, kept while the metadata
    /// is read.
    pub payload_req: Option<StoreType>,
    /// The materialized metadata, kept while the payload is read.
    pub meta_result: Option<Storage>,
    /// The current position of the reception.
    pub state: RecvState,
}

/// One instruction of the reception to the caller.
pub enum RecvStep {
    /// Invoke the negotiation callback with the declared message info and
    /// hand back its two storage requests.
    AskStorage(MsgInfo),
    /// Configure the frame codec as stated, await one content frame, and
    /// hand it back.
    Expect(ContentRequest),
    /// The message is complete.
    Done(Msg),
}

/// The outcome of one instruction, handed back to the reception.
pub enum RecvEvent {
    /// The negotiation callback's storage requests, for the metadata and the
    /// payload section.
    Choice(StoreType, StoreType),
    /// One content frame.
    Content(ContentEvent),
}

/// The step fails with a bad-state error.
pub open spec fn recv_fails_state(r: Result<RecvStep, Error>) -> bool {
    r matches Err(e) && e is BadState
}

/// The well-formedness of a reception between events: the metadata is only
/// ever read for a non-zero declared length with the payload's request on
/// record, and a materialized metadata result is on record exactly when a
/// metadata length was declared.  Every flow this module hands out satisfies
/// it, and every event preserves it.
pub open spec fn recv_wf(f: RecvFlow) -> bool {
    &&& f.state is Negotiating ==> (f.metalen != 0 || f.payloadlen != 0) && f.meta_result is None
    &&& f.state is ReadingMeta ==> f.metalen != 0 && f.payload_req is Some
    &&& f.state is ReadingPayload ==> f.payloadlen != 0 && (f.meta_result is Some <==> f.metalen
        != 0)
}

/// What starting a reception from a control frame with these fields yields:
/// unparsable declared fields are a parse error; both lengths zero is a
/// complete, contentless message with the callback never asked; otherwise
/// the callback is asked exactly once with the declared info.
pub open spec fn begin_post(
    m: Map<Seq<char>, Seq<char>>,
    flow: RecvFlow,
    r: Result<RecvStep, Error>,
) -> bool {
    match (len_of(m, "MetaLen"@, u32::MAX as int), len_of(m, "Len"@, u64::MAX as int), len_of(
        m,
        "Cmd"@,
        u32::MAX as int,
    )) {
        (Option::Some(ml), Option::Some(pl), Option::Some(c)) => {
            &&& flow.cmd == c
            &&& flow.metalen == ml
            &&& flow.payloadlen == pl
            &&& if ml == 0 && pl == 0 {
                r matches Ok(s) && s matches RecvStep::Done(msg) && msg.cmd == c
                    && msg.meta is None && msg.payload is None && flow.state is Finished
            } else {
                r matches Ok(s) && s matches RecvStep::AskStorage(mi) && mi.cmd == c && mi.metalen
                    == ml && mi.payloadlen == pl && flow.state is Negotiating
            }
        },
        _ => r matches Err(e) && e is Parse && flow.state is Failed,
    }
}

impl RecvFlow {
    /// Start receiving one message from its announced control frame.
    ///
    /// The declared lengths and command identifier are parsed (absence means
    /// `0`).  When both declared lengths are zero the message is complete at
    /// once, with no content for either section, and the negotiation
    /// callback is never asked.  Otherwise the callback is asked exactly
    /// once.
    pub fn begin(p: &blather::Params) -> (r: (RecvFlow, Result<RecvStep, Error>))
        ensures
            begin_post(params_map(*p), r.0, r.1),
            recv_wf(r.0),
    {
        let mut flow = RecvFlow {
            cmd: 0,
            metalen: 0,
            payloadlen: 0,
            payload_req: None,
            meta_result: None,
            state: RecvState::Failed,
        };
        let metalen = match parse_field_u32(p, "MetaLen") {
            Ok(n) => n,
            Err(e) => {
                return (flow, Err(e));
            },
        };
        let payloadlen = match parse_field_u64(p, "Len") {
            Ok(n) => n,
            Err(e) => {
                return (flow, Err(e));
            },
        };
        let cmd = match parse_field_u32(p, "Cmd") {
            Ok(n) => n,
            Err(e) => {
                return (flow, Err(e));
            },
        };
        flow.cmd = cmd;
        flow.metalen = metalen;
        flow.payloadlen = payloadlen;
        if metalen == 0 && payloadlen == 0 {
            flow.state = RecvState::Finished;
            (flow, Ok(RecvStep::Done(Msg { cmd, meta: None, payload: None })))
        } else {
            flow.state = RecvState::Negotiating;
            (
                flow,
                Ok(RecvStep::AskStorage(MsgInfo { cmd, metalen, payloadlen })),
            )
        }
    }

    /// Consume the outcome of the previous instruction and hand out the next.
    ///
    /// A section whose declared length is zero is skipped entirely,
    /// regardless of what the callback requested for it; a section with a
    /// non-zero declared length always yields a result — a discard request
    /// yields the completion marker, not content.  A content frame that fits
    /// no configuration of the codec, or an event that does not fit the
    /// current state, is a bad-state error.
    pub fn on_event(&mut self, ev: RecvEvent) -> (r: Result<RecvStep, Error>)
        ensures
            final(self).cmd == old(self).cmd,
            final(self).metalen == old(self).metalen,
            final(self).payloadlen == old(self).payloadlen,
            recv_wf(*old(self)) ==> recv_wf(*final(self)),
            old(self).state is Negotiating ==> (match ev {
                RecvEvent::Choice(ms, ps) => if old(self).metalen != 0 {
                    r matches Ok(s) && s matches RecvStep::Expect(q) && q == request_for_spec(
                        ms,
                        old(self).metalen as u64,
                    ) && final(self).state is ReadingMeta && final(self).payload_req == Option::Some(ps)
                } else {
                    r matches Ok(s) && s matches RecvStep::Expect(q) && q == request_for_spec(
                        ps,
                        old(self).payloadlen,
                    ) && final(self).state is ReadingPayload
                },
                _ => recv_fails_state(r) && final(self).state is Failed,
            }),
            old(self).state is ReadingMeta ==> (match ev {
                RecvEvent::Content(ce) => (match storage_of_spec(ce) {
                    Option::Some(st) => if old(self).payloadlen != 0 {
                        (match old(self).payload_req {
                            Option::Some(ps) => r matches Ok(s) && s matches RecvStep::Expect(q)
                                && q == request_for_spec(ps, old(self).payloadlen) && final(self).state is ReadingPayload && final(self).meta_result
                                == Option::Some(st),
                            Option::None => recv_fails_state(r) && final(self).state is Failed,
                        })
                    } else {
                        r matches Ok(s) && s matches RecvStep::Done(m) && m.cmd == old(self).cmd
                            && m.meta == Option::Some(st) && m.payload is None && final(self).state is Finished
                    },
                    Option::None => recv_fails_state(r) && final(self).state is Failed,
                }),
                _ => recv_fails_state(r) && final(self).state is Failed,
            }),
            old(self).state is ReadingPayload ==> (match ev {
                RecvEvent::Content(ce) => (match storage_of_spec(ce) {
                    Option::Some(st) => r matches Ok(s) && s matches RecvStep::Done(m) && m.cmd
                        == old(self).cmd && m.meta == old(self).meta_result && m.payload
                        == Option::Some(st) && final(self).state is Finished,
                    Option::None => recv_fails_state(r) && final(self).state is Failed,
                }),
                _ => recv_fails_state(r) && final(self).state is Failed,
            }),
            old(self).state is Finished ==> recv_fails_state(r) && final(self).state is Failed,
            old(self).state is Failed ==> recv_fails_state(r) && final(self).state is Failed,
    {
        match (&self.state, ev) {
            (RecvState::Negotiating, RecvEvent::Choice(ms, ps)) => {
                if self.metalen != 0 {
                    let req = request_for(ms, self.metalen as u64);
                    self.payload_req = Some(ps);
                    self.state = RecvState::ReadingMeta;
                    Ok(RecvStep::Expect(req))
                } else {
                    let req = request_for(ps, self.payloadlen);
                    self.state = RecvState::ReadingPayload;
                    Ok(RecvStep::Expect(req))
                }
            },
            (RecvState::ReadingMeta, RecvEvent::Content(ce)) => {
                let st = match content_storage(ce) {
                    Some(st) => st,
                    None => {
                        self.state = RecvState::Failed;
                        return Err(Error::bad_state("Unexpected codec input type."));
                    },
                };
                if self.payloadlen != 0 {
                    let mut taken: Option<StoreType> = None;
                    core::mem::swap(&mut self.payload_req, &mut taken);
                    let ps = match taken {
                        Some(ps) => ps,
                        None => {
                            self.state = RecvState::Failed;
                            return Err(Error::bad_state("No payload request on record"));
                        },
                    };
                    let req = request_for(ps, self.payloadlen);
                    self.meta_result = Some(st);
                    self.state = RecvState::ReadingPayload;
                    Ok(RecvStep::Expect(req))
                } else {
                    self.state = RecvState::Finished;
                    Ok(
                        RecvStep::Done(
                            Msg { cmd: self.cmd, meta: Some(st), payload: None },
                        ),
                    )
                }
            },
            (RecvState::ReadingPayload, RecvEvent::Content(ce)) => {
                let st = match content_storage(ce) {
                    Some(st) => st,
                    None => {
                        self.state = RecvState::Failed;
                        return Err(Error::bad_state("Unexpected codec input type."));
                    },
                };
                let mut meta: Option<Storage> = None;
                core::mem::swap(&mut self.meta_result, &mut meta);
                self.state = RecvState::Finished;
                Ok(RecvStep::Done(Msg { cmd: self.cmd, meta, payload: Some(st) }))
            },
            (_, _) => {
                self.state = RecvState::Failed;
                Err(Error::bad_state("Unexpected reception event"))
            },
        }
    }
}

/// Map one content frame to its storage result.
fn content_storage(ce: ContentEvent) -> (r: Option<Storage>)
    ensures
        r == storage_of_spec(ce),
{
    match ce {
        ContentEvent::SkipDone => Some(Storage::Skipped),
        ContentEvent::Bytes(b) => Some(Storage::Bytes(b)),
        ContentEvent::BytesMut(b) => Some(Storage::BytesMut(b)),
        ContentEvent::Params(p) => Some(Storage::Params(p)),
        ContentEvent::KVLines(k) => Some(Storage::KVLines(k)),
        ContentEvent::File(p) => Some(Storage::File(p)),
        ContentEvent::Other => None,
    }
}

/// What one iteration of the continuous-reception loop does, given the
/// outcome of racing "await the next message" against the cancellation
/// signal.
pub enum LoopAction {
    /// Deliver this message to the processing callback, then race again.
    Deliver(Msg),
    /// The cancellation signal fired between messages: stop cleanly, without
    /// delivering another message.
    Stop,
    /// Propagate this error to the caller at once.
    Fail(Error),
    /// Nothing happened yet: keep waiting.
    Wait,
}

/// Decide one iteration of the continuous-reception loop.
///
/// A message whose materialization completed is delivered to the processing
/// callback even when the cancellation signal fired concurrently; the signal
/// stops the loop only between messages.  Without a message and without
/// cancellation the loop keeps waiting; an error — disconnection included —
/// is propagated at once.
pub fn recvloop_step(msg: Option<Result<Msg, Error>>, cancelled: bool) -> (r: LoopAction)
    ensures
        msg matches Some(Result::Ok(m)) ==> (r matches LoopAction::Deliver(d) && d == m),
        msg matches Some(Result::Err(e)) ==> (r matches LoopAction::Fail(f) && f == e),
        msg is None && cancelled ==> r is Stop,
        msg is None && !cancelled ==> r is Wait,
{
    match msg {
        Some(Ok(m)) => LoopAction::Deliver(m),
        Some(Err(e)) => LoopAction::Fail(e),
        None => {
            if cancelled {
                LoopAction::Stop
            } else {
                LoopAction::Wait
            }
        },
    }
}

} // verus!
