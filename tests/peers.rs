use unix_peer::builder::SockType;
use unix_peer::duplex::{Direction, DuplexPair, HalfTag, SockOp};
use unix_peer::specifier::{
    AbstractConnect, AbstractDgram, AbstractListen, AddrError, Options, PeerPlan,
    SeqpacketConnect, SeqpacketListen, UnixConnect, UnixDgram, UnixListen,
};

#[test]
fn read_half_shuts_down_reading_on_drop() {
    let read = HalfTag { is_read_half: true };
    let write = HalfTag { is_read_half: false };
    assert_eq!(read.on_drop(), Some(Direction::Read));
    assert_eq!(write.on_drop(), None);
    assert_eq!(read.on_shutdown(), Direction::Write);
    assert_eq!(write.on_shutdown(), Direction::Write);
}

#[test]
fn pair_closes_once_read_half_first() {
    let mut p = DuplexPair::new();
    let (r, w) = p.tags();
    assert_eq!(p.shutdown(w), vec![SockOp::Shutdown(Direction::Write)]);
    assert_eq!(p.shutdown(r), vec![SockOp::Shutdown(Direction::Write)]);
    assert_eq!(p.drop_half(r), vec![SockOp::Shutdown(Direction::Read)]);
    assert_eq!(p.drop_half(w), vec![SockOp::Close]);
}

#[test]
fn pair_closes_once_write_half_first() {
    let mut p = DuplexPair::new();
    let (r, w) = p.tags();
    assert_eq!(p.drop_half(w), vec![]);
    assert_eq!(
        p.drop_half(r),
        vec![SockOp::Shutdown(Direction::Read), SockOp::Close]
    );
}

#[test]
fn unix_dgram_parse() {
    let d = UnixDgram::parse("./receiver:./sender").unwrap();
    assert_eq!(d.0, b"./receiver".to_vec());
    assert_eq!(d.1, b"./sender".to_vec());
    let e = UnixDgram::parse("only").err().unwrap();
    assert_eq!(e, AddrError::ExpectedTwoParts);
    assert!(!e.message().is_empty());
    assert!(UnixDgram::parse("a:b:c").is_err());
    let d = UnixDgram::parse(":").unwrap();
    assert!(d.0.is_empty() && d.1.is_empty());
}

#[test]
fn abstract_dgram_parse_and_construct() {
    let d = AbstractDgram::parse("rx:tx").unwrap();
    assert_eq!(d.0, "rx");
    assert_eq!(d.1, "tx");
    assert!(AbstractDgram::parse("rx").is_err());
    assert!(AbstractDgram::parse("a:b:c").is_err());
    let opts = Options { unlink_unix_socket: false, udp_oneshot_mode: true };
    match d.construct(&opts, false) {
        PeerPlan::Dgram { bind, connect, oneshot } => {
            assert_eq!(bind, b"\0rx".to_vec());
            assert_eq!(connect, b"\0tx".to_vec());
            assert!(oneshot);
        }
        _ => panic!("expected datagram plan"),
    }
    match d.construct(&opts, true) {
        PeerPlan::RawDgram { plan, oneshot } => {
            assert!(oneshot);
            assert_eq!(plan.sock_type, SockType::Dgram);
            assert_eq!(&plan.bind.as_ref().unwrap().path_bytes()[..3], b"\0rx");
            assert_eq!(&plan.connect.as_ref().unwrap().path_bytes()[..3], b"\0tx");
        }
        _ => panic!("expected raw datagram plan"),
    }
}

#[test]
fn stream_specifiers() {
    let opts = Options { unlink_unix_socket: true, udp_oneshot_mode: false };
    match UnixConnect(b"/run/s".to_vec()).construct() {
        PeerPlan::StreamConnect(p) => assert_eq!(p, b"/run/s".to_vec()),
        _ => panic!(),
    }
    match UnixListen(b"/run/s".to_vec()).construct(&opts) {
        PeerPlan::StreamListen { path, unlink_first } => {
            assert_eq!(path, b"/run/s".to_vec());
            assert!(unlink_first);
        }
        _ => panic!(),
    }
    match AbstractConnect("the_socket".to_string()).construct() {
        PeerPlan::StreamConnect(p) => assert_eq!(p, b"\0the_socket".to_vec()),
        _ => panic!(),
    }
    match AbstractListen("l".to_string()).construct() {
        PeerPlan::StreamListen { path, unlink_first } => {
            assert_eq!(path, b"\0l".to_vec());
            assert!(!unlink_first);
        }
        _ => panic!(),
    }
    match UnixDgram(b"a".to_vec(), b"b".to_vec()).construct(&Options::default()) {
        PeerPlan::Dgram { bind, connect, oneshot } => {
            assert_eq!((bind, connect, oneshot), (b"a".to_vec(), b"b".to_vec(), false));
        }
        _ => panic!(),
    }
}

#[test]
fn seqpacket_specifiers() {
    let opts = Options { unlink_unix_socket: true, udp_oneshot_mode: false };
    match SeqpacketConnect(b"@test".to_vec()).construct() {
        PeerPlan::RawConnect(plan) => {
            assert_eq!(plan.sock_type, SockType::Seqpacket);
            assert!(plan.connect.as_ref().unwrap().is_abstract());
            assert!(plan.bind.is_none() && !plan.listen);
        }
        _ => panic!(),
    }
    match SeqpacketListen(b"the_socket".to_vec()).construct(&opts) {
        PeerPlan::RawListen(plan) => {
            assert!(plan.listen);
            assert_eq!(plan.unlink, Some(b"the_socket".to_vec()));
        }
        _ => panic!(),
    }
}
