use ddmw_client::types::node::ddlnk::ProtImpl;
use ddmw_client::types::node::ddlnk::Protocol;
use ddmw_client::types::node::Type;

#[test]
fn type_to_string() {
    let t = Type::Sender;
    let s = t.to_string();
    assert_eq!(s, "sender");

    let t = Type::Receiver;
    let s = t.to_string();
    assert_eq!(s, "receiver");
}

#[test]
fn string_to_type() {
    let t = "sender".parse::<Type>().unwrap();
    assert_eq!(t, Type::Sender);

    let t = "receiver".parse::<Type>().unwrap();
    assert_eq!(t, Type::Receiver);
}

#[test]
fn protocol_to_string() {
    let t = Protocol::Ethernet;
    let s = t.to_string();
    assert_eq!(s, "ethernet");

    let t = Protocol::UDP;
    let s = t.to_string();
    assert_eq!(s, "udp");
}

#[test]
fn protimpl_to_string() {
    let t = ProtImpl::Pcap;
    let s = t.to_string();
    assert_eq!(s, "pcap");

    let t = ProtImpl::Generic;
    let s = t.to_string();
    assert_eq!(s, "generic");
}

#[test]
fn string_to_protocol() {
    let t = "ethernet".parse::<Protocol>().unwrap();
    assert_eq!(t, Protocol::Ethernet);

    let t = "udp".parse::<Protocol>().unwrap();
    assert_eq!(t, Protocol::UDP);
}

#[test]
fn string_to_protimpl() {
    let t = "pcap".parse::<ProtImpl>().unwrap();
    assert_eq!(t, ProtImpl::Pcap);

    let t = "generic".parse::<ProtImpl>().unwrap();
    assert_eq!(t, ProtImpl::Generic);
}

#[test]
fn unknown_type_names_are_bad_input() {
    assert!(matches!("Sender".parse::<Type>(), Err(ddmw_client::Error::BadInput(_))));
    assert!(matches!("tcp".parse::<Protocol>(), Err(ddmw_client::Error::BadInput(_))));
    assert!(matches!("".parse::<ProtImpl>(), Err(ddmw_client::Error::BadInput(_))));
}
