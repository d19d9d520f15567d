//! The private tun/tap settings of an edge and their defaults.

use vstd::prelude::*;
use vstd::utf8::{decode_utf8, valid_utf8};

use libc::c_char;

use crate::util::{
    c_str_bytes, lemma_first_zero_at, padded_c_chars, theorem_copy_then_read, utf8_lossy,
    CopyFromU8Slice, ToString,
};

verus! {

/// The size of the interface name field.
pub const N2N_IFNAMSIZ: usize = 16;

/// The size of the interface mode field.
pub const N2N_IF_MODE_SIZE: usize = 16;

/// The size of a dotted-decimal address or netmask field.
pub const N2N_NETMASK_STR_SIZE: usize = 16;

/// The size of the MAC address text field.
pub const N2N_MACNAMSIZ: usize = 18;

/// The default MTU of the tun/tap device.
pub const DEFAULT_MTU: i32 = 1290;

/// The default device name, `edge0`, with its NUL.
pub open spec fn default_dev_name() -> Seq<u8> {
    seq![0x65u8, 0x64u8, 0x67u8, 0x65u8, 0x30u8, 0u8]
}

/// The default netmask, `255.255.255.0`, with its NUL.
pub open spec fn default_netmask() -> Seq<u8> {
    seq![
        0x32u8, 0x35u8, 0x35u8, 0x2eu8, 0x32u8, 0x35u8, 0x35u8, 0x2eu8,
        0x32u8, 0x35u8, 0x35u8, 0x2eu8, 0x30u8, 0u8,
    ]
}

fn default_dev_name_bytes() -> (b: [u8; 6])
    ensures
        b@ == default_dev_name(),
{
    let b: [u8; 6] = [0x65, 0x64, 0x67, 0x65, 0x30, 0];
    assert(b@ =~= default_dev_name());
    b
}

fn default_netmask_bytes() -> (b: [u8; 14])
    ensures
        b@ == default_netmask(),
{
    let b: [u8; 14] = [0x32, 0x35, 0x35, 0x2e, 0x32, 0x35, 0x35, 0x2e, 0x32, 0x35, 0x35, 0x2e, 0x30, 0];
    assert(b@ =~= default_netmask());
    b
}

/// Read back as C strings, the default device name is `edge0` and the
/// default netmask is `255.255.255.0`, both valid UTF-8.
pub proof fn theorem_default_names_read_back()
    ensures
        c_str_bytes(padded_c_chars(default_dev_name(), N2N_IFNAMSIZ as nat)) == seq![
            0x65u8,
            0x64u8,
            0x67u8,
            0x65u8,
            0x30u8,
        ],
        c_str_bytes(padded_c_chars(default_netmask(), N2N_NETMASK_STR_SIZE as nat)) == seq![
            0x32u8,
            0x35u8,
            0x35u8,
            0x2eu8,
            0x32u8,
            0x35u8,
            0x35u8,
            0x2eu8,
            0x32u8,
            0x35u8,
            0x35u8,
            0x2eu8,
            0x30u8,
        ],
{
    let d = default_dev_name();
    let n = default_netmask();
    theorem_copy_then_read(d, N2N_IFNAMSIZ as nat);
    theorem_copy_then_read(n, N2N_NETMASK_STR_SIZE as nat);
    lemma_first_zero_at(d, 5);
    lemma_first_zero_at(n, 13);
    assert(d.take(5) =~= seq![0x65u8, 0x64u8, 0x67u8, 0x65u8, 0x30u8]);
    assert(n.take(13) =~= seq![
        0x32u8, 0x35u8, 0x35u8, 0x2eu8, 0x32u8, 0x35u8, 0x35u8, 0x2eu8,
        0x32u8, 0x35u8, 0x35u8, 0x2eu8, 0x30u8,
    ]);
}

/// The private tun/tap settings of an edge, as the C library holds them.
pub struct TunTapPrivConfig {
    pub tuntap_dev_name: [c_char; N2N_IFNAMSIZ],
    pub ip_mode: [c_char; N2N_IF_MODE_SIZE],
    pub ip_addr: [c_char; N2N_NETMASK_STR_SIZE],
    pub netmask: [c_char; N2N_NETMASK_STR_SIZE],
    pub device_mac: [c_char; N2N_MACNAMSIZ],
    pub mtu: i32,
    pub metric: i32,
    pub daemon: u8,
}

impl TunTapPrivConfig {
    /// The default settings: the default MTU, run as a daemon, the device
    /// named `edge0`, the netmask `255.255.255.0`, and no MAC address and no
    /// address mode. The address and the metric are left clear.
    pub fn default() -> (cfg: Self)
        ensures
            cfg.mtu == DEFAULT_MTU,
            cfg.daemon == 1,
            cfg.tuntap_dev_name@ == padded_c_chars(default_dev_name(), N2N_IFNAMSIZ as nat),
            cfg.netmask@ == padded_c_chars(default_netmask(), N2N_NETMASK_STR_SIZE as nat),
            cfg.device_mac@ == Seq::new(N2N_MACNAMSIZ as nat, |i: int| 0 as c_char),
            cfg.ip_mode@ == Seq::new(N2N_IF_MODE_SIZE as nat, |i: int| 0 as c_char),
            cfg.ip_addr@ == Seq::new(N2N_NETMASK_STR_SIZE as nat, |i: int| 0 as c_char),
            cfg.metric == 0,
            cfg.tuntap_dev_name@.contains(0 as c_char),
            cfg.netmask@.contains(0 as c_char),
    {
        let mut cfg = TunTapPrivConfig {
            tuntap_dev_name: [0; N2N_IFNAMSIZ],
            ip_mode: [0; N2N_IF_MODE_SIZE],
            ip_addr: [0; N2N_NETMASK_STR_SIZE],
            netmask: [0; N2N_NETMASK_STR_SIZE],
            device_mac: [0; N2N_MACNAMSIZ],
            mtu: 0,
            metric: 0,
            daemon: 0,
        };
        cfg.mtu = DEFAULT_MTU;
        cfg.daemon = 1;
        let dev_name = default_dev_name_bytes();
        let dev_slice: &mut [c_char] = &mut cfg.tuntap_dev_name;
        dev_slice.copy_from_u8_slice(dev_name.as_slice()).unwrap();
        let netmask = default_netmask_bytes();
        let netmask_slice: &mut [c_char] = &mut cfg.netmask;
        netmask_slice.copy_from_u8_slice(netmask.as_slice()).unwrap();
        proof {
            theorem_copy_then_read(default_dev_name(), N2N_IFNAMSIZ as nat);
            theorem_copy_then_read(default_netmask(), N2N_NETMASK_STR_SIZE as nat);
        }
        assert(cfg.device_mac@ =~= Seq::new(N2N_MACNAMSIZ as nat, |i: int| 0 as c_char));
        assert(cfg.ip_mode@ =~= Seq::new(N2N_IF_MODE_SIZE as nat, |i: int| 0 as c_char));
        assert(cfg.ip_addr@ =~= Seq::new(N2N_NETMASK_STR_SIZE as nat, |i: int| 0 as c_char));
        cfg
    }

    /// What the settings show: the MTU, the daemon flag, the device name and
    /// the netmask, the two names read as C strings.
    pub fn summary(&self) -> (r: (i32, u8, String, String))
        requires
            self.tuntap_dev_name@.contains(0 as c_char),
            self.netmask@.contains(0 as c_char),
        ensures
            r.0 == self.mtu,
            r.1 == self.daemon,
            r.2@ == utf8_lossy(c_str_bytes(self.tuntap_dev_name@)),
            r.3@ == utf8_lossy(c_str_bytes(self.netmask@)),
            valid_utf8(c_str_bytes(self.tuntap_dev_name@)) ==> r.2@ == decode_utf8(
                c_str_bytes(self.tuntap_dev_name@),
            ),
            valid_utf8(c_str_bytes(self.netmask@)) ==> r.3@ == decode_utf8(
                c_str_bytes(self.netmask@),
            ),
    {
        let dev_slice: &[c_char] = self.tuntap_dev_name.as_slice();
        let netmask_slice: &[c_char] = self.netmask.as_slice();
        let dev_name = dev_slice.to_string();
        let netmask = netmask_slice.to_string();
        (self.mtu, self.daemon, dev_name, netmask)
    }
}

} // verus!
