use ddmw_client::conn::FrameEvent;
use ddmw_client::msg::recv::classify_announcement;
use ddmw_client::msg::recv::recvloop_step;
use ddmw_client::msg::recv::sub_request;
use ddmw_client::msg::recv::ContentEvent;
use ddmw_client::msg::recv::ContentRequest;
use ddmw_client::msg::recv::LoopAction;
use ddmw_client::msg::recv::Msg;
use ddmw_client::msg::recv::RecvEvent;
use ddmw_client::msg::recv::RecvFlow;
use ddmw_client::msg::recv::RecvStep;
use ddmw_client::msg::recv::StoreType;
use ddmw_client::msg::recv::Storage;
use ddmw_client::msg::recv::SubCh;
use ddmw_client::msg::recv::SubInfo;
use ddmw_client::Error;

fn announce(fields: &[(&str, &str)]) -> blather::Params {
    let mut p = blather::Params::new();
    for (k, v) in fields {
        p.add_str(*k, *v).unwrap();
    }
    p
}

/// With both declared lengths zero the negotiation callback is never asked
/// and both sections come back empty.
#[test]
fn zero_lengths_skip_negotiation() {
    let (_flow, step) = RecvFlow::begin(&announce(&[("Cmd", "9")]));
    match step.unwrap() {
        RecvStep::Done(msg) => {
            assert_eq!(msg.cmd, 9);
            assert!(msg.meta.is_none());
            assert!(msg.payload.is_none());
        },
        _ => panic!("expected a complete message with no negotiation"),
    }
}

/// A zero-length metadata section is skipped regardless of the requested
/// storage; the non-zero payload section is materialized.
#[test]
fn zero_meta_nonzero_payload() {
    let (mut flow, step) = RecvFlow::begin(&announce(&[("Len", "5")]));
    match step.unwrap() {
        RecvStep::AskStorage(mi) => {
            assert_eq!(mi.cmd, 0);
            assert_eq!(mi.metalen, 0);
            assert_eq!(mi.payloadlen, 5);
        },
        _ => panic!("expected the negotiation to be asked"),
    }
    let step = flow.on_event(RecvEvent::Choice(StoreType::File("m".to_string()), StoreType::Bytes))
        .unwrap();
    match step {
        RecvStep::Expect(ContentRequest::Bytes(5)) => {},
        _ => panic!("expected the payload section to be configured"),
    }
    let step = flow
        .on_event(RecvEvent::Content(ContentEvent::Bytes(bytes::Bytes::from_static(b"hello"))))
        .unwrap();
    match step {
        RecvStep::Done(msg) => {
            assert!(msg.meta.is_none());
            assert!(matches!(msg.payload, Some(Storage::Bytes(_))));
        },
        _ => panic!("expected a complete message"),
    }
}

/// Both sections declared: the metadata is materialized first, then the
/// payload, each as requested.
#[test]
fn both_sections_in_order() {
    let (mut flow, step) = RecvFlow::begin(
        &announce(&[("Cmd", "7"), ("MetaLen", "3"), ("Len", "5")]),
    );
    match step.unwrap() {
        RecvStep::AskStorage(mi) => {
            assert_eq!(mi.cmd, 7);
            assert_eq!(mi.metalen, 3);
            assert_eq!(mi.payloadlen, 5);
        },
        _ => panic!("expected the negotiation to be asked"),
    }
    let step = flow
        .on_event(RecvEvent::Choice(StoreType::Params, StoreType::File("out.bin".to_string())))
        .unwrap();
    assert!(matches!(step, RecvStep::Expect(ContentRequest::Params)));
    let step = flow.on_event(RecvEvent::Content(ContentEvent::Params(blather::Params::new())))
        .unwrap();
    match step {
        RecvStep::Expect(ContentRequest::File(path, 5)) => assert_eq!(path, "out.bin"),
        _ => panic!("expected the payload section to be configured"),
    }
    let step = flow.on_event(RecvEvent::Content(ContentEvent::File("out.bin".to_string()))).unwrap();
    match step {
        RecvStep::Done(Msg { cmd, meta, payload }) => {
            assert_eq!(cmd, 7);
            assert!(matches!(meta, Some(Storage::Params(_))));
            match payload {
                Some(Storage::File(p)) => assert_eq!(p, "out.bin"),
                _ => panic!("expected the payload in the requested file"),
            }
        },
        _ => panic!("expected a complete message"),
    }
}

/// A discarded non-zero section still yields a result: the completion
/// marker, not content.
#[test]
fn discard_still_signals_completion() {
    let (mut flow, _step) = RecvFlow::begin(&announce(&[("MetaLen", "4")]));
    let step = flow.on_event(RecvEvent::Choice(StoreType::Discard, StoreType::Discard)).unwrap();
    assert!(matches!(step, RecvStep::Expect(ContentRequest::Skip(4))));
    let step = flow.on_event(RecvEvent::Content(ContentEvent::SkipDone)).unwrap();
    match step {
        RecvStep::Done(msg) => {
            assert!(matches!(msg.meta, Some(Storage::Skipped)));
            assert!(msg.payload.is_none());
        },
        _ => panic!("expected a complete message"),
    }
}

/// A declared length that does not parse is a parse error.
#[test]
fn malformed_length_is_parse_error() {
    let (_flow, step) = RecvFlow::begin(&announce(&[("MetaLen", "abc")]));
    assert!(matches!(step, Err(Error::Parse(_))));
    let (_flow, step) = RecvFlow::begin(&announce(&[("Len", "-3")]));
    assert!(matches!(step, Err(Error::Parse(_))));
}

/// The announcement is classified solely by topic.
#[test]
fn announcement_classification() {
    let mut tg = blather::Telegram::try_new("Msg").unwrap();
    tg.add_str("Len", "5").unwrap();
    let p = classify_announcement(FrameEvent::Control(tg)).unwrap();
    assert_eq!(p.get_str("Len"), Some("5"));

    let tg = blather::Telegram::try_new("Fail").unwrap();
    let r = classify_announcement(FrameEvent::Control(tg));
    assert!(matches!(r, Err(Error::ServerError(_))));

    let tg = blather::Telegram::try_new("Ok").unwrap();
    let r = classify_announcement(FrameEvent::Control(tg));
    assert!(matches!(r, Err(Error::BadState(_))));

    let r = classify_announcement(FrameEvent::Content);
    assert!(matches!(r, Err(Error::BadState(_))));

    let r = classify_announcement(FrameEvent::Closed);
    assert!(matches!(r, Err(Error::Disconnected)));
}

/// One loop iteration: a message that finished materializing is delivered
/// even when the cancellation fired concurrently; cancellation between
/// messages stops the loop without delivering another message.
#[test]
fn loop_delivers_inflight_message_before_stopping() {
    let msg = Msg { cmd: 1, meta: None, payload: None };
    match recvloop_step(Some(Ok(msg)), true) {
        LoopAction::Deliver(m) => assert_eq!(m.cmd, 1),
        _ => panic!("the in-flight message must be delivered"),
    }
    assert!(matches!(recvloop_step(None, true), LoopAction::Stop));
    assert!(matches!(recvloop_step(None, false), LoopAction::Wait));
    match recvloop_step(Some(Err(Error::Disconnected)), false) {
        LoopAction::Fail(Error::Disconnected) => {},
        _ => panic!("an error is propagated at once"),
    }
}

/// The subscription request names the channel.
#[test]
fn sub_request_shape() {
    let tg = sub_request(&SubInfo { ch: SubCh::Num(3) }).unwrap();
    assert_eq!(tg.get_topic(), "Sub");
    assert_eq!(tg.get_str("Ch"), Some("3"));

    let tg = sub_request(&SubInfo { ch: SubCh::Name("news".to_string()) }).unwrap();
    assert_eq!(tg.get_str("Ch"), Some("news"));
}
