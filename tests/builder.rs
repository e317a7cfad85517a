use unix_peer::addr::{pack_marked, pack_path};
use unix_peer::builder::{run_fake, Action, RawBuilder, RawPlan, SockType, LISTEN_BACKLOG};

#[test]
fn seqpacket_listen_with_unlink_removes_file_before_bind() {
    let plan = RawPlan::seqpacket_listen(b"/tmp/sock", true);
    let (mut b, a) = RawBuilder::start(plan);
    assert!(matches!(a, Action::Socket(SockType::Seqpacket)));
    match b.on_result(7) {
        Action::Unlink(p) => assert_eq!(p, b"/tmp/sock".to_vec()),
        _ => panic!("expected unlink"),
    }
    // a failed unlink is ignored
    match b.on_result(-1) {
        Action::Bind(fd, addr) => {
            assert_eq!(fd, 7);
            assert_eq!(&addr.path_bytes()[..9], b"/tmp/sock");
            assert_eq!(addr.used_len(), 9);
        }
        _ => panic!("expected bind"),
    }
    assert!(matches!(b.on_result(0), Action::Listen(7, LISTEN_BACKLOG)));
    assert_eq!(LISTEN_BACKLOG, 50);
    assert!(matches!(b.on_result(0), Action::Ready(7)));
}

#[test]
fn seqpacket_listen_without_unlink_binds_directly() {
    let plan = RawPlan::seqpacket_listen(b"/tmp/sock", false);
    assert!(plan.unlink.is_none());
    let (mut b, _) = RawBuilder::start(plan);
    assert!(matches!(b.on_result(4), Action::Bind(4, _)));
}

#[test]
fn seqpacket_listen_on_abstract_name_never_unlinks() {
    let plan = RawPlan::seqpacket_listen(b"@name", true);
    assert!(plan.unlink.is_none());
    let addr = plan.bind.as_ref().unwrap();
    assert!(addr.is_abstract());
    assert_eq!(&addr.path_bytes()[..5], b"\0name");
}

#[test]
fn long_listen_path_binds_its_first_108_bytes() {
    let long = vec![b'p'; 120];
    let plan = RawPlan::seqpacket_listen(&long, true);
    // the removed file is the one the bound address names
    assert_eq!(plan.unlink.as_ref().unwrap(), &long[..108].to_vec());
    let addr = plan.bind.as_ref().unwrap();
    let want = pack_marked(&long[..108]);
    assert_eq!(addr.path_bytes(), want.path_bytes());
    assert_eq!(addr.path_bytes()[107], b'p');
    assert_eq!(addr.used_len(), 108);
    assert_eq!(addr.socklen(), 110);
}

#[test]
fn seqpacket_connect_sequence() {
    let plan = RawPlan::seqpacket_connect(b"@test");
    let (mut b, a) = RawBuilder::start(plan);
    assert!(matches!(a, Action::Socket(SockType::Seqpacket)));
    match b.on_result(5) {
        Action::Connect(5, addr) => {
            let want = pack_marked(b"@test");
            assert_eq!(addr.path_bytes(), want.path_bytes());
        }
        _ => panic!("expected connect"),
    }
    assert!(matches!(b.on_result(0), Action::Ready(5)));
}

#[test]
fn dgram_sequence_and_connect_failure() {
    let plan = RawPlan::dgram(b"\0a", b"\0b");
    let (mut b, a) = RawBuilder::start(plan);
    assert!(matches!(a, Action::Socket(SockType::Dgram)));
    match b.on_result(9) {
        Action::Bind(9, addr) => assert_eq!(addr.path_bytes(), pack_path(b"\0a").path_bytes()),
        _ => panic!("expected bind"),
    }
    assert!(matches!(b.on_result(0), Action::Connect(9, _)));
    assert!(matches!(b.on_result(-1), Action::Abandon(9)));
}

#[test]
fn create_failure_opens_nothing() {
    let r = run_fake(RawPlan::seqpacket_connect(b"x"), &vec![-1]);
    assert_eq!(r.fd, None);
    assert_eq!(r.opened, 0);
    assert_eq!(r.closed, 0);
}

#[test]
fn no_descriptor_leak_at_any_stage() {
    // create, unlink, bind, listen
    for failing in [2usize, 3] {
        let mut results = vec![3, 0, 0, 0];
        results[failing] = -1;
        let r = run_fake(RawPlan::seqpacket_listen(b"/tmp/s", true), &results);
        assert_eq!(r.fd, None);
        assert_eq!(r.opened, 1);
        assert_eq!(r.closed, 1);
    }
    // create, bind, connect
    for failing in [1usize, 2] {
        let mut results = vec![3, 0, 0];
        results[failing] = -1;
        let r = run_fake(RawPlan::dgram(b"a", b"b"), &results);
        assert_eq!(r.fd, None);
        assert_eq!(r.opened, r.closed);
    }
    let r = run_fake(RawPlan::seqpacket_connect(b"x"), &vec![3, -1]);
    assert_eq!((r.fd, r.opened, r.closed), (None, 1, 1));
}

#[test]
fn successful_build_hands_out_descriptor() {
    let r = run_fake(RawPlan::seqpacket_listen(b"/tmp/s", true), &vec![11, -1, 0, 0]);
    assert_eq!(r.fd, Some(11));
    assert_eq!((r.opened, r.closed), (1, 0));
    let r = run_fake(RawPlan::dgram(b"a", b"b"), &vec![]);
    assert_eq!(r.fd, Some(0));
}
