use n2n::edge::edge::{Bootstrap, Edge, TunTapIpMode};
use n2n::edge::edge_conf::{check_verify_code, EdgeConf, EdgeConfBuilder, Transform};
use n2n::N2NError;

fn edge() -> Edge {
    Edge {
        sn_wait: 0,
        sn_pong: 1,
        last_sup: 42,
        last_sweep: 7,
        last_register_req: 9,
        number_max_sn_pings: 3,
        tuntap_ip_mode: TunTapIpMode::Static,
    }
}

#[test]
fn verify_codes() {
    assert_eq!(check_verify_code(0), Ok(()));
    assert_eq!(check_verify_code(-1), Err(N2NError::CommunityNameNull));
    assert_eq!(check_verify_code(-2), Err(N2NError::SnNumIsZero));
    assert_eq!(check_verify_code(-3), Err(N2NError::UnKnown));
    assert_eq!(check_verify_code(1), Err(N2NError::UnKnown));
}

#[test]
fn builder_starts_empty() {
    let b = EdgeConfBuilder::new();
    let c = b.to_conf();
    assert_eq!(c.encrypt_key, "");
    assert!(c.community_name.is_empty());
    assert_eq!(c.supernodes, vec![String::new()]);
}

#[test]
fn builder_sets_fields() {
    let mut b = EdgeConfBuilder::new();
    b.encrypt_key("secret").supernode("sn.example:7777").community_name("mycomm");
    let c = b.to_conf();
    assert_eq!(c.transop, Transform::Aes);
    assert_eq!(c.encrypt_key, "secret");
    assert_eq!(c.community_name, b"mycomm".to_vec());
    assert_eq!(c.supernodes, vec!["sn.example:7777".to_string()]);
}

#[test]
fn builder_later_setting_wins() {
    let mut b = EdgeConfBuilder::new();
    b.community_name("first");
    b.community_name("second").encrypt_key("k");
    let c = b.to_conf();
    assert_eq!(c.community_name, b"second".to_vec());
    assert_eq!(c.encrypt_key, "k");
}

fn builder<'a>() -> EdgeConfBuilder<'a> {
    let mut b = EdgeConfBuilder::new();
    b.encrypt_key("k").supernode("1.2.3.4:7654").community_name("com");
    b
}

#[test]
fn build_accepted() {
    let mut seen = None;
    let r = builder().build(|c: &EdgeConf| {
        seen = Some(c.community_name.clone());
        0
    });
    let c = r.unwrap();
    assert_eq!(seen, Some(b"com".to_vec()));
    assert_eq!(c.community_name, b"com".to_vec());
    assert_eq!(c.supernodes, vec!["1.2.3.4:7654".to_string()]);
}

#[test]
fn build_community_name_null() {
    let r = builder().build(|_c: &EdgeConf| -1);
    assert_eq!(r.err(), Some(N2NError::CommunityNameNull));
}

#[test]
fn build_no_supernode() {
    let r = builder().build(|_c: &EdgeConf| -2);
    assert_eq!(r.err(), Some(N2NError::SnNumIsZero));
}

#[test]
fn build_unknown() {
    let r = builder().build(|_c: &EdgeConf| -4);
    assert_eq!(r.err(), Some(N2NError::UnKnown));
}

#[test]
fn bootstrap_runs_through_levels() {
    let mut e = edge();
    let mut b = Bootstrap::start(&mut e);
    assert_eq!(e.last_sup, 0);
    assert_eq!(e.tuntap_ip_mode, TunTapIpMode::SnAssign);
    assert_eq!(b.runlevel(), 2);
    assert!(!b.is_done());

    let a = b.step(&mut e);
    assert!(a.send_register_super && !a.open_tuntap && a.await_socket);
    assert_eq!(b.runlevel(), 3);
    assert_eq!(e.sn_wait, 1);
    assert_eq!(e.sn_pong, 0);

    for _ in 0..3 {
        let a = b.step(&mut e);
        assert!(!a.send_register_super && !a.open_tuntap && a.await_socket);
        assert_eq!(b.runlevel(), 3);
    }

    e.sn_wait = 0;
    e.sn_pong = 1;
    let a = b.step(&mut e);
    assert!(!a.send_register_super && !a.open_tuntap && a.await_socket);
    assert_eq!(b.runlevel(), 4);
    assert_eq!(e.sn_pong, 0);

    e.sn_wait = 1;
    let a = b.step(&mut e);
    assert!(!a.send_register_super && a.open_tuntap && !a.await_socket);
    assert_eq!(b.runlevel(), 5);
    assert!(b.is_done());
    assert_eq!(e.last_sweep, 7);
    assert_eq!(e.last_register_req, 9);
    assert_eq!(e.tuntap_ip_mode, TunTapIpMode::SnAssign);
}

#[test]
fn finish_bootstrap_sets_times() {
    let mut e = edge();
    e.finish_bootstrap(1000, 30, 3, 15);
    assert_eq!(e.number_max_sn_pings, 15);
    assert_eq!(e.last_sweep, 976);
    assert_eq!(e.sn_wait, 1);
    assert_eq!(e.last_register_req, 0);
    assert_eq!(e.last_sup, 42);
    assert_eq!(e.sn_pong, 1);
    assert_eq!(e.tuntap_ip_mode, TunTapIpMode::Static);
}

#[test]
fn can_assemble_checks_inputs() {
    assert!(builder().can_assemble());
    let mut b = builder();
    b.community_name("abcdefghijklmnopqrst");
    assert!(b.can_assemble());
    b.community_name("abcdefghijklmnopqrstu");
    assert!(!b.can_assemble());
    let mut b = builder();
    b.encrypt_key("a\0b");
    assert!(!b.can_assemble());
    let mut b = builder();
    b.supernode("\0");
    assert!(!b.can_assemble());
}
