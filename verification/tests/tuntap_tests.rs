use n2n::tuntap::{TunTapPrivConfig, DEFAULT_MTU, N2N_IFNAMSIZ, N2N_MACNAMSIZ};

#[test]
fn test() {
    let t = TunTapPrivConfig::default();
    let (mtu, daemon, dev_name, netmask) = t.summary();
    println!(
        "mtu is {},and daemon is {},dev_name is {},netmask is {}",
        mtu, daemon, dev_name, netmask
    );
}

#[test]
fn default_settings() {
    let t = TunTapPrivConfig::default();
    assert_eq!(t.mtu, DEFAULT_MTU);
    assert_eq!(t.mtu, 1290);
    assert_eq!(t.daemon, 1);
    assert_eq!(t.device_mac, [0; N2N_MACNAMSIZ]);
    assert_eq!(t.ip_mode, [0; 16]);
    assert_eq!(t.tuntap_dev_name.len(), N2N_IFNAMSIZ);
    assert_eq!(&t.tuntap_dev_name[..6], &[101, 100, 103, 101, 48, 0]);
    assert!(t.tuntap_dev_name[6..].iter().all(|c| *c == 0));
}

#[test]
fn default_summary_reads_names() {
    let t = TunTapPrivConfig::default();
    let (mtu, daemon, dev_name, netmask) = t.summary();
    assert_eq!(mtu, 1290);
    assert_eq!(daemon, 1);
    assert_eq!(dev_name, "edge0");
    assert_eq!(netmask, "255.255.255.0");
}
