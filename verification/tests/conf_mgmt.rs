use ddmw_client::conf::Config;
use ddmw_client::mgmt::acc::ls_request;
use ddmw_client::mgmt::acc::parse_account;
use ddmw_client::mgmt::acc::parse_ls;
use ddmw_client::mgmt::acc::rd_request;
use ddmw_client::mgmt::acc::rm_request;
use ddmw_client::mgmt::acc::wr_request;
use ddmw_client::mgmt::acc::ModPerms;
use ddmw_client::mgmt::acc::WrAccount;
use ddmw_client::probe::parse_nodeinfo;
use ddmw_client::probe::nodeinfo_request;
use ddmw_client::types::node::ddlnk::ProtImpl;
use ddmw_client::types::node::ddlnk::Protocol;
use ddmw_client::types::node::Type;
use ddmw_client::types::AppChannel;
use ddmw_client::types::ObjRef;
use ddmw_client::conn::ProtAddr;
use ddmw_client::Error;

fn empty_config() -> Config {
    Config { channel: None, auth: None, sender: None, receiver: None }
}

#[test]
fn config_channel_round() {
    let mut c = empty_config();
    c.set_appch(AppChannel::Num(3));
    match c.get_appch().unwrap() {
        Some(AppChannel::Num(n)) => assert_eq!(n, 3),
        _ => panic!("expected the numeric channel back"),
    }
    c.set_appch(AppChannel::Name("news".to_string()));
    match c.get_appch().unwrap() {
        Some(AppChannel::Name(n)) => assert_eq!(n, "news"),
        _ => panic!("expected the named channel back"),
    }
    assert!(empty_config().get_appch().unwrap().is_none());
}

#[test]
fn config_msgif_round() {
    let mut c = empty_config();
    c.set_sender_msgif(ProtAddr::Tcp("h:1".to_string()));
    match c.get_sender_msgif().unwrap() {
        Some(ProtAddr::Tcp(a)) => assert_eq!(a, "h:1"),
        _ => panic!("expected the TCP address back"),
    }
    c.set_sender_msgif(ProtAddr::Uds("/run/s".to_string()));
    match c.get_sender_msgif().unwrap() {
        Some(ProtAddr::Uds(p)) => assert_eq!(p, "/run/s"),
        _ => panic!("expected the socket path back"),
    }
    assert!(empty_config().get_sender_msgif().unwrap().is_none());
}

#[test]
fn config_auth_setters_accumulate() {
    let mut c = empty_config();
    c.set_auth_account("frank");
    c.set_auth_pass("secret");
    c.set_auth_pass_file("/tmp/pass");
    c.set_auth_token("T");
    c.set_auth_token_file("/tmp/tok");
    let a = c.auth.as_ref().unwrap();
    assert_eq!(a.name.as_deref(), Some("frank"));
    assert_eq!(a.pass.as_deref(), Some("secret"));
    assert_eq!(a.pass_file.as_deref(), Some("/tmp/pass"));
    assert_eq!(a.token.as_deref(), Some("T"));
    assert_eq!(a.token_file.as_deref(), Some("/tmp/tok"));
}

#[test]
fn account_requests() {
    let tg = rd_request(None).unwrap();
    assert_eq!(tg.get_topic(), "RdAcc");
    assert_eq!(tg.num_params(), 0);

    let tg = rd_request(Some(&ObjRef::Id(-7))).unwrap();
    assert_eq!(tg.get_str("Id"), Some("-7"));

    let tg = rm_request(&ObjRef::Name("frank".to_string())).unwrap();
    assert_eq!(tg.get_topic(), "RmAcc");
    assert_eq!(tg.get_str("Name"), Some("frank"));

    let tg = ls_request(true).unwrap();
    assert_eq!(tg.get_topic(), "LsAcc");
    assert_eq!(tg.get_str("All"), Some("true"));
    let tg = ls_request(false).unwrap();
    assert_eq!(tg.get_str("All"), None);
}

#[test]
fn write_account_request() {
    let ai = WrAccount {
        name: Some("new".to_string()),
        username: Some("Frank".to_string()),
        lock: Some(true),
        perms: Some(ModPerms::GrantRevoke(
            vec!["read".to_string(), "write".to_string()],
            vec!["admin".to_string()],
        )),
    };
    let tg = wr_request(&ObjRef::Id(4), &ai).unwrap();
    assert_eq!(tg.get_topic(), "WrAcc");
    assert_eq!(tg.get_str("Id"), Some("4"));
    assert_eq!(tg.get_str("NewName"), Some("new"));
    assert_eq!(tg.get_str("UserName"), Some("Frank"));
    assert_eq!(tg.get_str("Lock"), Some("true"));
    assert_eq!(tg.get_str("Grant"), Some("read write"));
    assert_eq!(tg.get_str("Revoke"), Some("admin"));

    let ai = WrAccount {
        name: None,
        username: None,
        lock: None,
        perms: Some(ModPerms::Replace(vec!["read".to_string()])),
    };
    let tg = wr_request(&ObjRef::Id(4), &ai).unwrap();
    assert_eq!(tg.get_str("Perms"), Some("read"));
    assert_eq!(tg.get_str("Lock"), None);
}

#[test]
fn account_reply_parsing() {
    let mut p = blather::Params::new();
    p.add_str("Id", "12").unwrap();
    p.add_str("Name", "frank").unwrap();
    p.add_str("Lock", "false").unwrap();
    p.add_str("Perms", "read write").unwrap();
    let a = parse_account(&p).unwrap();
    assert_eq!(a.id, 12);
    assert_eq!(a.name, "frank");
    assert!(!a.lock);
    assert_eq!(a.perms, vec!["read".to_string(), "write".to_string()]);

    let mut p = blather::Params::new();
    p.add_str("Id", "12").unwrap();
    assert!(matches!(parse_account(&p), Err(Error::MissingData(_))));
}

#[test]
fn listing_reply_parsing() {
    let mut p = blather::Params::new();
    p.add_str("#", "2").unwrap();
    p.add_str("0.Id", "1").unwrap();
    p.add_str("0.Name", "a").unwrap();
    p.add_str("1.Id", "2").unwrap();
    p.add_str("1.Name", "b").unwrap();
    let v = parse_ls(&p).unwrap();
    assert_eq!(v.len(), 2);
    assert_eq!(v[0].id, 1);
    assert_eq!(v[0].name, "a");
    assert_eq!(v[1].id, 2);
    assert_eq!(v[1].name, "b");

    let mut p = blather::Params::new();
    p.add_str("#", "1").unwrap();
    assert!(matches!(parse_ls(&p), Err(Error::MissingData(_))));

    let p = blather::Params::new();
    assert!(matches!(parse_ls(&p), Err(Error::MissingData(_))));
}

#[test]
fn nodeinfo_round() {
    let tg = nodeinfo_request().unwrap();
    assert_eq!(tg.get_topic(), "GetNodeInfo");

    let mut p = blather::Params::new();
    p.add_str("ddmw.node", "receiver").unwrap();
    p.add_str("ddmw.version", "1.2.3").unwrap();
    p.add_str("os.name", "linux").unwrap();
    p.add_str("ddmw.ddlnk.engine", "eng").unwrap();
    p.add_str("ddmw.ddlink.protocol", "udp").unwrap();
    p.add_str("ddmw.ddlink.protimpl", "generic").unwrap();
    let ni = parse_nodeinfo(&p).unwrap();
    assert_eq!(ni.nodetype, Type::Receiver);
    assert_eq!(ni.version, "1.2.3");
    assert_eq!(ni.os_name, "linux");
    assert_eq!(ni.ddlnk.engine, "eng");
    assert_eq!(ni.ddlnk.protocol, Protocol::UDP);
    assert_eq!(ni.ddlnk.protimpl, ProtImpl::Generic);

    let mut p = blather::Params::new();
    p.add_str("ddmw.node", "router").unwrap();
    assert!(matches!(parse_nodeinfo(&p), Err(Error::BadInput(_))));

    let p = blather::Params::new();
    assert!(matches!(parse_nodeinfo(&p), Err(Error::MissingData(_))));
}

#[test]
fn default_records_are_empty() {
    let c = Config::default();
    assert!(c.channel.is_none() && c.auth.is_none() && c.sender.is_none() && c.receiver.is_none());
    let a = ddmw_client::auth::Auth::default();
    assert!(a.name.is_none() && a.pass.is_none() && a.pass_file.is_none());
    assert!(a.token.is_none() && a.token_file.is_none());
}
