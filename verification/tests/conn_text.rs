use ddmw_client::conn::classify_reply;
use ddmw_client::conn::parse_whoami;
use ddmw_client::conn::whoami_request;
use ddmw_client::conn::FrameEvent;
use ddmw_client::conn::ProtAddr;
use ddmw_client::text::parse_bool;
use ddmw_client::text::parse_i64;
use ddmw_client::text::parse_u32;
use ddmw_client::text::parse_u64;
use ddmw_client::text::split_spaces;
use ddmw_client::text::u64_to_string;
use ddmw_client::Error;

#[test]
fn reply_classification() {
    let mut tg = blather::Telegram::try_new("Ok").unwrap();
    tg.add_str("XferId", "7").unwrap();
    let p = classify_reply(FrameEvent::Control(tg)).unwrap();
    assert_eq!(p.get_str("XferId"), Some("7"));

    let mut tg = blather::Telegram::try_new("Fail").unwrap();
    tg.add_str("Reason", "nope").unwrap();
    match classify_reply(FrameEvent::Control(tg)) {
        Err(Error::ServerError(p)) => assert_eq!(p.get_str("Reason"), Some("nope")),
        _ => panic!("a Fail reply is a server error"),
    }

    let tg = blather::Telegram::try_new("Msg").unwrap();
    assert!(matches!(classify_reply(FrameEvent::Control(tg)), Err(Error::BadState(_))));
    assert!(matches!(classify_reply(FrameEvent::Content), Err(Error::BadState(_))));
    assert!(matches!(classify_reply(FrameEvent::Closed), Err(Error::Disconnected)));
}

#[test]
fn whoami_round() {
    let tg = whoami_request().unwrap();
    assert_eq!(tg.get_topic(), "WhoAmI");
    assert_eq!(tg.num_params(), 0);

    let mut p = blather::Params::new();
    p.add_str("Id", "42").unwrap();
    p.add_str("Name", "frank").unwrap();
    let w = parse_whoami(&p).unwrap();
    assert_eq!(w.id, 42);
    assert_eq!(w.name, "frank");

    let mut p = blather::Params::new();
    p.add_str("Name", "frank").unwrap();
    assert!(matches!(parse_whoami(&p), Err(Error::MissingData(_))));

    let mut p = blather::Params::new();
    p.add_str("Id", "4x2").unwrap();
    p.add_str("Name", "frank").unwrap();
    assert!(matches!(parse_whoami(&p), Err(Error::Parse(_))));
}

#[test]
fn address_shape_selects_transport() {
    match ProtAddr::parse("example.com:4001") {
        ProtAddr::Tcp(a) => assert_eq!(a, "example.com:4001"),
        _ => panic!("an address without a path separator is TCP"),
    }
    match ProtAddr::parse("/run/ddmw/msg.sock") {
        ProtAddr::Uds(p) => assert_eq!(p, "/run/ddmw/msg.sock"),
        _ => panic!("an address with a path separator is a socket path"),
    }
    assert_eq!(ProtAddr::parse("a/b").to_string(), "a/b");
    assert_eq!(ProtAddr::parse("h:1").to_string(), "h:1");
}

#[test]
fn unsigned_parsing() {
    assert_eq!(parse_u64("0"), Some(0));
    assert_eq!(parse_u64("18446744073709551615"), Some(u64::MAX));
    assert_eq!(parse_u64("18446744073709551616"), None);
    assert_eq!(parse_u64("+17"), Some(17));
    assert_eq!(parse_u64(""), None);
    assert_eq!(parse_u64("+"), None);
    assert_eq!(parse_u64("1 2"), None);
    assert_eq!(parse_u32("4294967295"), Some(u32::MAX));
    assert_eq!(parse_u32("4294967296"), None);
    assert_eq!(parse_u32("007"), Some(7));
}

#[test]
fn signed_parsing() {
    assert_eq!(parse_i64("-1"), Some(-1));
    assert_eq!(parse_i64("+8"), Some(8));
    assert_eq!(parse_i64("9223372036854775807"), Some(i64::MAX));
    assert_eq!(parse_i64("-9223372036854775808"), Some(i64::MIN));
    assert_eq!(parse_i64("-9223372036854775809"), None);
    assert_eq!(parse_i64("9223372036854775808"), None);
    assert_eq!(parse_i64("-+5"), None);
    assert_eq!(parse_i64("-"), None);
}

#[test]
fn decimal_rendering() {
    assert_eq!(u64_to_string(0), "0");
    assert_eq!(u64_to_string(17), "17");
    assert_eq!(u64_to_string(u64::MAX), "18446744073709551615");
}

#[test]
fn bool_forms() {
    assert_eq!(parse_bool("true"), Some(true));
    assert_eq!(parse_bool("on"), Some(true));
    assert_eq!(parse_bool("1"), Some(true));
    assert_eq!(parse_bool("false"), Some(false));
    assert_eq!(parse_bool("off"), Some(false));
    assert_eq!(parse_bool("0"), Some(false));
    assert_eq!(parse_bool("maybe"), None);
}

#[test]
fn word_splitting() {
    let words = split_spaces("read  write admin ");
    assert_eq!(words, vec!["read".to_string(), "write".to_string(), "admin".to_string()]);
    assert!(split_spaces("   ").is_empty());
}

#[test]
fn newline_values_are_rejected_by_the_envelope() {
    let r = ddmw_client::auth::auth_token_request("a\nb");
    assert!(matches!(r, Err(Error::Blather(_))));
    let r = ddmw_client::msg::recv::sub_request(&ddmw_client::msg::recv::SubInfo {
        ch: ddmw_client::msg::recv::SubCh::Name("a\nb".to_string()),
    });
    assert!(matches!(r, Err(Error::Blather(_))));
}

#[test]
fn error_descriptions() {
    let e = Error::InvalidCredentials("Missing passphrase".to_string());
    assert_eq!(e.describe(), "Invalid credentials; Missing passphrase");
    assert_eq!(Error::Disconnected.describe(), "Disconnected");
    assert_eq!(Error::Parse("Len".to_string()).describe(), "Parsing failed; Len");
}
