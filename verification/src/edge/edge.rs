//! The state of an edge that its bootstrap reads and writes, and the runlevel
//! machine that registers the edge with its supernode before the tun/tap
//! device is opened.
//!
//! Each step of the machine is taken with the edge's state as the C library
//! last left it; the step updates that state and says what outside work comes
//! next: sending the registration to the supernode, opening the tun/tap
//! device, and waiting on the edge's socket for a packet to process. After
//! every step the caller also lets the resolver check its supernode names.

use vstd::prelude::*;

verus! {

/// How the tun/tap device of an edge gets its address.
#[derive(Debug, Clone, Copy, PartialEq, Eq, Structural)]
pub enum TunTapIpMode {
    /// The supernode assigns the address.
    SnAssign,
    /// The address is configured statically.
    Static,
    /// The address is obtained by DHCP.
    Dhcp,
}

/// The fields of the C edge that the bootstrap reads and writes.
#[derive(Debug, Clone, Copy, PartialEq, Eq, Structural)]
pub struct Edge {
    /// Non-zero while the edge waits for the supernode to answer its
    /// registration; the C library clears it when the answer comes.
    pub sn_wait: u8,
    /// Non-zero when a supernode answered a ping.
    pub sn_pong: u8,
    /// When the supernode last answered.
    pub last_sup: i64,
    /// When the edge last swept its peer lists.
    pub last_sweep: i64,
    /// When the edge last sent a registration request.
    pub last_register_req: i64,
    /// How many supernodes the edge pings at most.
    pub number_max_sn_pings: u8,
    /// How the edge's tun/tap device gets its address.
    pub tuntap_ip_mode: TunTapIpMode,
}

/// The first runlevel of the bootstrap: the registration is to be sent.
pub const RUNLEVEL_REGISTER: u8 = 2;

/// The runlevel at which the edge waits for the supernode's answer.
pub const RUNLEVEL_AWAIT_ANSWER: u8 = 3;

/// The runlevel at which the tun/tap device is to be opened.
pub const RUNLEVEL_OPEN_TUNTAP: u8 = 4;

/// The runlevel at which the bootstrap is over.
pub const RUNLEVEL_DONE: u8 = 5;

/// The outside work that a step of the bootstrap asks for, in this order.
#[derive(Debug, Clone, Copy, PartialEq, Eq, Structural)]
pub struct BootstrapActions {
    /// Send the registration request to the supernode.
    pub send_register_super: bool,
    /// Open the tun/tap device and hand it to the edge.
    pub open_tuntap: bool,
    /// Wait on the edge's socket for the bootstrap timeout and process the
    /// packet that arrives.
    pub await_socket: bool,
}

/// The runlevel machine of the bootstrap.
pub struct Bootstrap {
    runlevel: u8,
}

impl View for Bootstrap {
    type V = nat;

    closed spec fn view(&self) -> nat {
        self.runlevel as nat
    }
}

/// The runlevel that follows `level` when the edge's `sn_wait` is seen:
/// the registration is sent at level 2, level 3 is left once the supernode
/// has answered, and level 4 opens the device and ends the bootstrap.
pub open spec fn next_runlevel(level: nat, sn_wait: u8) -> nat {
    if level == 2 {
        3
    } else if level == 3 {
        if sn_wait == 0 {
            4
        } else {
            3
        }
    } else if level == 4 {
        5
    } else {
        level
    }
}

/// The outside work of the step taken at `level`.
pub open spec fn step_actions(level: nat) -> BootstrapActions {
    BootstrapActions {
        send_register_super: level == 2,
        open_tuntap: level == 4,
        await_socket: level != 4,
    }
}

/// The edge after the step taken at `level`: a supernode's pong is
/// forgotten, and the registration step marks the edge as waiting for the
/// answer.
pub open spec fn step_edge(level: nat, edge: Edge) -> Edge {
    Edge { sn_wait: if level == 2 { 1 } else { edge.sn_wait }, sn_pong: 0, ..edge }
}

/// The edge once the bootstrap is over, at time `now`: it pings at most
/// `sn_pings_initial` supernodes, its last sweep is dated so that the next
/// comes `2 * bootstrap_timeout` after the sweep interval, it waits for a
/// registration answer, and it has sent no registration request yet.
pub open spec fn finished_edge(
    edge: Edge,
    now: i64,
    sweep_time: i64,
    bootstrap_timeout: i64,
    sn_pings_initial: u8,
) -> Edge {
    Edge {
        number_max_sn_pings: sn_pings_initial,
        last_sweep: (now - sweep_time + 2 * bootstrap_timeout) as i64,
        sn_wait: 1,
        last_register_req: 0,
        ..edge
    }
}

/// The last sweep date of `finished_edge` fits an `i64`, computed as
/// `(now - sweep_time) + 2 * bootstrap_timeout`.
pub open spec fn finish_fits(now: i64, sweep_time: i64, bootstrap_timeout: i64) -> bool {
    &&& i64::MIN <= now - sweep_time <= i64::MAX
    &&& i64::MIN <= 2 * bootstrap_timeout <= i64::MAX
    &&& i64::MIN <= now - sweep_time + 2 * bootstrap_timeout <= i64::MAX
}

impl Bootstrap {
    #[verifier::type_invariant]
    spec fn inv(self) -> bool {
        RUNLEVEL_REGISTER <= self.runlevel <= RUNLEVEL_DONE
    }

    /// Starts the bootstrap of `edge` at level 2: the supernode is to assign
    /// the device's address, and no supernode answer has been seen yet.
    pub fn start(edge: &mut Edge) -> (b: Bootstrap)
        ensures
            b@ == 2,
            *final(edge) == (Edge {
                tuntap_ip_mode: TunTapIpMode::SnAssign,
                last_sup: 0,
                ..*old(edge)
            }),
    {
        edge.tuntap_ip_mode = TunTapIpMode::SnAssign;
        edge.last_sup = 0;
        Bootstrap { runlevel: RUNLEVEL_REGISTER }
    }

    /// The current runlevel.
    pub fn runlevel(&self) -> (l: u8)
        ensures
            l == self@,
            2 <= l <= 5,
    {
        proof {
            use_type_invariant(self);
        }
        self.runlevel
    }

    /// Whether the bootstrap is over.
    pub fn is_done(&self) -> (d: bool)
        ensures
            d == (self@ == 5),
    {
        proof {
            use_type_invariant(self);
        }
        self.runlevel >= RUNLEVEL_DONE
    }

    /// Takes one step of the bootstrap with the edge's state as the C library
    /// left it.
    pub fn step(&mut self, edge: &mut Edge) -> (a: BootstrapActions)
        requires
            old(self)@ < 5,
        ensures
            2 <= old(self)@,
            final(self)@ == next_runlevel(old(self)@, old(edge).sn_wait),
            *final(edge) == step_edge(old(self)@, *old(edge)),
            old(self)@ == 2 ==> final(edge).sn_wait == 1,
            old(self)@ != 2 ==> final(edge).sn_wait == old(edge).sn_wait,
            final(edge).sn_pong == 0,
            a == step_actions(old(self)@),
    {
        proof {
            use_type_invariant(&*self);
        }
        edge.sn_pong = 0;
        let level = self.runlevel;
        if level == RUNLEVEL_REGISTER {
            edge.sn_wait = 1;
            self.runlevel = RUNLEVEL_AWAIT_ANSWER;
        } else if level == RUNLEVEL_AWAIT_ANSWER {
            if edge.sn_wait == 0 {
                self.runlevel = RUNLEVEL_OPEN_TUNTAP;
            }
        } else if level == RUNLEVEL_OPEN_TUNTAP {
            self.runlevel = RUNLEVEL_DONE;
        }
        BootstrapActions {
            send_register_super: level == RUNLEVEL_REGISTER,
            open_tuntap: level == RUNLEVEL_OPEN_TUNTAP,
            await_socket: level != RUNLEVEL_OPEN_TUNTAP,
        }
    }
}

impl Edge {
    /// Sets the edge up for normal operation once the bootstrap is over at
    /// time `now`.
    pub fn finish_bootstrap(
        &mut self,
        now: i64,
        sweep_time: i64,
        bootstrap_timeout: i64,
        sn_pings_initial: u8,
    )
        requires
            finish_fits(now, sweep_time, bootstrap_timeout),
        ensures
            *final(self) == finished_edge(
                *old(self),
                now,
                sweep_time,
                bootstrap_timeout,
                sn_pings_initial,
            ),
    {
        self.number_max_sn_pings = sn_pings_initial;
        self.last_sweep = now - sweep_time + 2 * bootstrap_timeout;
        self.sn_wait = 1;
        self.last_register_req = 0;
    }
}

/// The runlevel stays between 2 and 5 and never goes back: a step moves it
/// up by one or leaves it where it is.
pub proof fn theorem_runlevel_monotone(level: nat, sn_wait: u8)
    requires
        2 <= level < 5,
    ensures
        level <= next_runlevel(level, sn_wait) <= level + 1,
        2 <= next_runlevel(level, sn_wait) <= 5,
{
}

/// The registration request is sent by exactly the step that leaves level 2,
/// and that step marks the edge as waiting for the supernode's answer; no
/// later step sends it again, as the runlevel never comes back to 2.
pub proof fn theorem_register_sent_once(level: nat, sn_wait: u8, edge: Edge)
    requires
        2 <= level < 5,
    ensures
        step_actions(level).send_register_super <==> level == 2,
        level == 2 ==> step_edge(level, edge).sn_wait == 1,
        next_runlevel(level, sn_wait) != 2,
{
}

/// The device is opened by exactly the step that ends the bootstrap, and
/// that step is the only one that does not wait on the socket.
pub proof fn theorem_tuntap_opened_last(level: nat, sn_wait: u8)
    requires
        2 <= level < 5,
    ensures
        step_actions(level).open_tuntap <==> next_runlevel(level, sn_wait) == 5,
        step_actions(level).await_socket <==> !step_actions(level).open_tuntap,
{
}

/// The edge waits at level 3 as long as the supernode has not answered, and
/// once the answer is seen the bootstrap ends two steps later, whatever the
/// edge's state is then.
pub proof fn theorem_completes_after_answer(sn_wait: u8, later_sn_wait: u8)
    ensures
        sn_wait != 0 ==> next_runlevel(3, sn_wait) == 3,
        sn_wait == 0 ==> next_runlevel(3, sn_wait) == 4,
        sn_wait == 0 ==> next_runlevel(next_runlevel(3, sn_wait), later_sn_wait) == 5,
{
}

/// Every step forgets a supernode's pong and keeps the times, the ping
/// limit and the address mode of the edge.
pub proof fn theorem_step_keeps_times(level: nat, edge: Edge)
    ensures
        step_edge(level, edge).sn_pong == 0,
        step_edge(level, edge).last_sup == edge.last_sup,
        step_edge(level, edge).last_sweep == edge.last_sweep,
        step_edge(level, edge).last_register_req == edge.last_register_req,
        step_edge(level, edge).number_max_sn_pings == edge.number_max_sn_pings,
        step_edge(level, edge).tuntap_ip_mode == edge.tuntap_ip_mode,
{
}

/// Only the registration step writes `sn_wait`: every other step leaves it
/// as the C library set it, so an answer seen at level 3 is not undone.
pub proof fn theorem_only_register_writes_sn_wait(level: nat, edge: Edge)
    ensures
        level != 2 ==> step_edge(level, edge).sn_wait == edge.sn_wait,
        level == 2 ==> step_edge(level, edge).sn_wait == 1,
{
}

} // verus!
