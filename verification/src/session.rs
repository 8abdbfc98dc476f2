//! The interface session guard, as a verified state machine.
//!
//! Configuring the device requires exclusive ownership of its USB
//! interfaces: for each interface the kernel driver is detached if one is
//! bound, the interface is claimed, the packets are sent, and on every exit
//! path — success or failure at any step — each claimed interface is
//! released and each detached driver reattached.
//!
//! The guard itself performs no I/O.  It is a step function from the
//! current state and the outcome of the last USB operation to the next
//! state and the next operation, so the release guarantee is a proved
//! property of the machine: whenever it issues [`SessionCommand::Finish`],
//! a release was issued for every claimed interface and a reattach for
//! every detached driver (see [`lemma_guard_releases_all`]).  A driver loop
//! (`usb::apply_config`, or a mock backend in tests) performs each command
//! and feeds back the resulting event.

use vstd::prelude::*;

verus! {

/// A USB operation the guard asks its driver loop to perform.
#[derive(Clone, Copy, Debug, PartialEq, Eq, Structural)]
pub enum SessionCommand {
    /// Ask whether a kernel driver is bound to the interface.
    QueryDriver(u8),
    /// Detach the kernel driver from the interface.
    DetachDriver(u8),
    /// Claim the interface.
    ClaimInterface(u8),
    /// Send the packet with the given index in the fixed transfer order.
    SendPacket(usize),
    /// Release the interface.
    ReleaseInterface(u8),
    /// Reattach the kernel driver to the interface.
    AttachDriver(u8),
    /// The session is over; the flag reports whether every step — claims,
    /// transfers, releases and reattaches — succeeded.
    Finish(bool),
}

/// The outcome of the last command, reported by the driver loop.
#[derive(Clone, Copy, Debug, PartialEq, Eq, Structural)]
pub enum SessionEvent {
    /// Answer to [`SessionCommand::QueryDriver`].
    DriverStatus(bool),
    /// The command succeeded.
    Done,
    /// The command failed.
    Failed,
}

/// Which command the guard is waiting on.
#[derive(Clone, Copy, Debug, PartialEq, Eq, Structural)]
pub enum SessionPhase {
    AwaitDriverStatus { idx: usize },
    AwaitDetach { idx: usize },
    AwaitClaim { idx: usize, had_driver: bool },
    AwaitSend { pkt: usize },
    AwaitRelease { idx: usize },
    AwaitAttach { idx: usize },
    Finished,
}

/// The guard's state: the interfaces to claim, how far the session has
/// progressed, and a record of every issued claim, release and reattach.
pub struct SessionGuard {
    /// Whether this platform supports kernel-driver detach at all; when it
    /// does not, interfaces are claimed directly and no reattach happens.
    pub supports_detach: bool,
    /// The interfaces to claim, in claim order.
    pub interfaces: Vec<u8>,
    /// How many packets to send once every interface is claimed.
    pub packet_count: usize,
    /// Which command the guard is waiting on.
    pub phase: SessionPhase,
    /// The successfully claimed interfaces in claim order, each with
    /// whether its kernel driver was detached first.
    pub claimed: Vec<(u8, bool)>,
    /// The interfaces a release has been issued for.
    pub released: Vec<u8>,
    /// The interfaces a driver reattach has been issued for.
    pub reattached: Vec<u8>,
    /// Whether any step failed.
    pub failed: bool,
}

impl SessionGuard {
    /// Claims happen in interface order: the record of claimed interfaces
    /// is always a prefix of the requested interface list.
    pub open spec fn claims_in_order(self) -> bool {
        &&& self.claimed@.len() <= self.interfaces@.len()
        &&& forall|j: int|
            0 <= j < self.claimed@.len() ==> (#[trigger] self.claimed@[j]).0
                == self.interfaces@[j]
    }

    /// Claim record `j` has been wound down: a release was issued for its
    /// interface, and a reattach too if its kernel driver was detached.
    pub open spec fn slot_handled(self, j: int) -> bool {
        &&& self.released@.contains(self.claimed@[j].0)
        &&& self.claimed@[j].1 ==> self.reattached@.contains(self.claimed@[j].0)
    }

    /// The first `n` claim records have been wound down.
    pub open spec fn handled_upto(self, n: int) -> bool {
        forall|j: int| 0 <= j < n ==> #[trigger] self.slot_handled(j)
    }

    /// Every claim record has been wound down: nothing claimed during the
    /// session is left claimed, and nothing detached is left detached.
    pub open spec fn release_complete(self) -> bool {
        self.handled_upto(self.claimed@.len() as int)
    }

    /// The session is winding down: no further claim or transfer will be
    /// issued, only releases and reattaches.
    pub open spec fn winding_down(self) -> bool {
        ||| self.phase is AwaitRelease
        ||| self.phase is AwaitAttach
        ||| self.phase is Finished
    }

    /// An upper bound on the number of steps left in the session; every
    /// step strictly decreases it, so any driver loop terminates.
    pub open spec fn measure(self) -> int {
        let ilen = self.interfaces@.len() as int;
        let clen = self.claimed@.len() as int;
        let p = self.packet_count as int;
        match self.phase {
            SessionPhase::AwaitDriverStatus { idx } => 5 * (ilen - idx) + p + 2 * clen + 1,
            SessionPhase::AwaitDetach { idx } => 5 * (ilen - idx) + p + 2 * clen,
            SessionPhase::AwaitClaim { idx, had_driver } => 5 * (ilen - idx) + p + 2 * clen - 1,
            SessionPhase::AwaitSend { pkt } => (p - pkt) + 2 * clen + 1,
            SessionPhase::AwaitRelease { idx } => 2 * (clen - idx),
            SessionPhase::AwaitAttach { idx } => 2 * (clen - idx) - 1,
            SessionPhase::Finished => 0,
        }
    }

    /// The machine's invariant, preserved by every step.
    pub open spec fn inv(self) -> bool {
        &&& self.claims_in_order()
        &&& self.packet_count >= 1
        &&& match self.phase {
            SessionPhase::AwaitDriverStatus { idx } => {
                &&& self.supports_detach
                &&& idx == self.claimed@.len()
                &&& idx < self.interfaces@.len()
                &&& !self.failed
            },
            SessionPhase::AwaitDetach { idx } => {
                &&& self.supports_detach
                &&& idx == self.claimed@.len()
                &&& idx < self.interfaces@.len()
                &&& !self.failed
            },
            SessionPhase::AwaitClaim { idx, had_driver } => {
                &&& idx == self.claimed@.len()
                &&& idx < self.interfaces@.len()
                &&& !self.failed
            },
            SessionPhase::AwaitSend { pkt } => {
                &&& self.claimed@.len() == self.interfaces@.len()
                &&& pkt < self.packet_count
                &&& !self.failed
            },
            SessionPhase::AwaitRelease { idx } => {
                &&& idx < self.claimed@.len()
                &&& self.handled_upto(idx as int)
                &&& self.released@.contains(self.claimed@[idx as int].0)
            },
            SessionPhase::AwaitAttach { idx } => {
                &&& idx < self.claimed@.len()
                &&& self.handled_upto(idx as int)
                &&& self.released@.contains(self.claimed@[idx as int].0)
                &&& self.claimed@[idx as int].1
                &&& self.reattached@.contains(self.claimed@[idx as int].0)
            },
            SessionPhase::Finished => self.release_complete(),
        }
    }
}

/// Issues the command that begins work on interface `idx`: a driver query
/// where detach is supported, a direct claim otherwise.
fn begin_interface(mut g: SessionGuard, idx: usize) -> (r: (SessionGuard, SessionCommand))
    requires
        g.claims_in_order(),
        g.packet_count >= 1,
        idx == g.claimed@.len(),
        idx < g.interfaces@.len(),
        !g.failed,
    ensures
        r.0.inv(),
        !(r.1 is Finish),
        !(r.0.phase is Finished),
        r.0.measure() <= 5 * (g.interfaces@.len() - idx) + g.packet_count + 2 * g.claimed@.len()
            + 1,
        g.supports_detach ==> r.0.phase == (SessionPhase::AwaitDriverStatus { idx }) && r.1
            == SessionCommand::QueryDriver(g.interfaces@[idx as int]),
        !g.supports_detach ==> r.0.phase == (SessionPhase::AwaitClaim { idx, had_driver: false })
            && r.1 == SessionCommand::ClaimInterface(g.interfaces@[idx as int]),
        r.0.interfaces == g.interfaces,
        r.0.supports_detach == g.supports_detach,
        r.0.packet_count == g.packet_count,
        r.0.claimed == g.claimed,
        r.0.released == g.released,
        r.0.reattached == g.reattached,
        r.0.failed == g.failed,
{
    let iface = g.interfaces[idx];
    if g.supports_detach {
        g.phase = SessionPhase::AwaitDriverStatus { idx };
        (g, SessionCommand::QueryDriver(iface))
    } else {
        g.phase = SessionPhase::AwaitClaim { idx, had_driver: false };
        (g, SessionCommand::ClaimInterface(iface))
    }
}

/// Winds the session down from claim record `i`: issues the next release,
/// or reports the session finished once every record is handled.
fn release_step(mut g: SessionGuard, i: usize) -> (r: (SessionGuard, SessionCommand))
    requires
        g.claims_in_order(),
        g.packet_count >= 1,
        i <= g.claimed@.len(),
        g.handled_upto(i as int),
    ensures
        r.0.inv(),
        r.1 is Finish <==> r.0.phase is Finished,
        r.1 is Finish ==> r.0.release_complete() && r.0.measure() == 0,
        r.1 is Finish ==> r.0.released == g.released && r.0.reattached == g.reattached,
        !(r.1 is Finish) ==> r.0.measure() == 2 * (g.claimed@.len() - i),
        !(r.1 is Finish) ==> r.0.phase == (SessionPhase::AwaitRelease { idx: i }) && r.1
            == SessionCommand::ReleaseInterface(g.claimed@[i as int].0) && r.0.released@
            == g.released@.push(g.claimed@[i as int].0) && r.0.reattached == g.reattached,
        r.1 matches SessionCommand::Finish(ok) ==> ok == !g.failed,
        r.0.winding_down(),
        r.0.interfaces == g.interfaces,
        r.0.supports_detach == g.supports_detach,
        r.0.packet_count == g.packet_count,
        r.0.claimed == g.claimed,
        r.0.failed == g.failed,
        g.released@.is_prefix_of(r.0.released@),
        g.reattached@.is_prefix_of(r.0.reattached@),
{
    let ghost g0 = g;
    if i < g.claimed.len() {
        let (iface, _had_driver) = g.claimed[i];
        g.released.push(iface);
        g.phase = SessionPhase::AwaitRelease { idx: i };
        proof {
            assert(g.released@[g.released@.len() - 1] == iface);
            assert(g.released@.contains(iface));
            assert(g0.released@.is_prefix_of(g.released@));
            assert forall|j: int| 0 <= j < i implies #[trigger] g.slot_handled(j) by {
                assert(g0.slot_handled(j));
                lemma_contains_preserved_by_push(g0.released@, g.claimed@[j].0, iface);
            }
        }
        (g, SessionCommand::ReleaseInterface(iface))
    } else {
        g.phase = SessionPhase::Finished;
        let ok = !g.failed;
        proof {
            assert forall|j: int| 0 <= j < g.claimed@.len() implies #[trigger] g.slot_handled(
                j,
            ) by {
                assert(g0.slot_handled(j));
            }
        }
        (g, SessionCommand::Finish(ok))
    }
}

proof fn lemma_contains_preserved_by_push<T>(s: Seq<T>, x: T, e: T)
    requires
        s.contains(x),
    ensures
        s.push(e).contains(x),
{
    let w = choose|w: int| 0 <= w < s.len() && s[w] == x;
    assert(s.push(e)[w] == x);
}

/// Starts a session over the given interfaces: claims them in order, then
/// sends `packet_count` packets, then releases everything.
///
/// Returns the initial guard state and the first command to perform.
pub fn begin_session(interfaces: Vec<u8>, supports_detach: bool, packet_count: usize) -> (r: (
    SessionGuard,
    SessionCommand,
))
    requires
        packet_count >= 1,
    ensures
        r.0.inv(),
        r.0.interfaces == interfaces,
        r.0.supports_detach == supports_detach,
        r.0.packet_count == packet_count,
        r.0.claimed@.len() == 0,
        r.0.released@.len() == 0,
        r.0.reattached@.len() == 0,
        !r.0.failed,
        !(r.1 is Finish),
        !(r.0.phase is Finished),
        interfaces@.len() == 0 ==> r.0.phase == (SessionPhase::AwaitSend { pkt: 0 }) && r.1
            == SessionCommand::SendPacket(0),
        r.1 matches SessionCommand::SendPacket(k) ==> (r.0.phase matches SessionPhase::AwaitSend {
            pkt,
        } && pkt == k && k < r.0.packet_count),
        interfaces@.len() > 0 && supports_detach ==> r.1 == SessionCommand::QueryDriver(
            interfaces@[0],
        ),
        interfaces@.len() > 0 && !supports_detach ==> r.1 == SessionCommand::ClaimInterface(
            interfaces@[0],
        ),
{
    let g = SessionGuard {
        supports_detach,
        interfaces,
        packet_count,
        phase: SessionPhase::AwaitSend { pkt: 0 },
        claimed: Vec::new(),
        released: Vec::new(),
        reattached: Vec::new(),
        failed: false,
    };
    if g.interfaces.len() == 0 {
        (g, SessionCommand::SendPacket(0))
    } else {
        begin_interface(g, 0)
    }
}

/// Advances the session by one step: consumes the outcome of the last
/// command and issues the next one.
///
/// The release guarantee is part of this contract: whenever the returned
/// command is [`SessionCommand::Finish`], every interface claimed during
/// the session has had a release issued and every detached kernel driver a
/// reattach — whether the session succeeded or failed at any point.
pub fn session_step(g: SessionGuard, event: SessionEvent) -> (r: (SessionGuard, SessionCommand))
    requires
        g.inv(),
        !(g.phase is Finished),
    ensures
        r.0.inv(),
        r.1 is Finish <==> r.0.phase is Finished,
        r.1 is Finish ==> r.0.release_complete(),
        r.1 matches SessionCommand::Finish(ok) ==> (ok <==> !r.0.failed),
        !(r.1 is Finish) ==> 0 <= r.0.measure() < g.measure(),
        r.0.interfaces == g.interfaces,
        r.0.supports_detach == g.supports_detach,
        r.0.packet_count == g.packet_count,
        g.claimed@.is_prefix_of(r.0.claimed@),
        g.failed ==> r.0.failed,
        g.winding_down() ==> r.0.winding_down() && r.0.claimed == g.claimed,
        // a failure at any step — a release or reattach included — is
        // recorded, never masked
        event == SessionEvent::Failed ==> r.0.failed,
        // a driver query is answered by detaching an active driver or
        // claiming directly, on the same interface
        g.phase matches SessionPhase::AwaitDriverStatus { idx } ==> (event
            == SessionEvent::DriverStatus(true) ==> r.0.phase == (SessionPhase::AwaitDetach { idx })
            && r.1 == SessionCommand::DetachDriver(g.interfaces@[idx as int])),
        g.phase matches SessionPhase::AwaitDriverStatus { idx } ==> (event
            == SessionEvent::DriverStatus(false) ==> r.0.phase == (SessionPhase::AwaitClaim {
            idx,
            had_driver: false,
        }) && r.1 == SessionCommand::ClaimInterface(g.interfaces@[idx as int])),
        // a successful detach is followed by the claim, remembering that a
        // driver must be reattached
        g.phase matches SessionPhase::AwaitDetach { idx } ==> (event == SessionEvent::Done
            ==> r.0.phase == (SessionPhase::AwaitClaim { idx, had_driver: true }) && r.1
            == SessionCommand::ClaimInterface(g.interfaces@[idx as int])),
        // a successful claim is recorded, then the next interface is taken
        // up, or the transfers start once every interface is claimed
        g.phase matches SessionPhase::AwaitClaim { idx, had_driver } ==> (event
            == SessionEvent::Done ==> r.0.claimed@ == g.claimed@.push(
            (g.interfaces@[idx as int], had_driver),
        ) && (idx + 1 == g.interfaces@.len() ==> r.0.phase == (SessionPhase::AwaitSend { pkt: 0 })
            && r.1 == SessionCommand::SendPacket(0))),
        // the packets go out in their fixed order
        g.phase matches SessionPhase::AwaitSend { pkt } ==> (event == SessionEvent::Done && pkt + 1
            < g.packet_count ==> r.0.phase == (SessionPhase::AwaitSend {
            pkt: (pkt + 1) as usize,
        }) && r.1 == SessionCommand::SendPacket((pkt + 1) as usize)),
        // after the last packet the wind-down starts without failure
        g.phase matches SessionPhase::AwaitSend { pkt } ==> (event == SessionEvent::Done && pkt + 1
            == g.packet_count ==> r.0.winding_down() && !r.0.failed),
        // any failure while claiming or sending starts the wind-down with
        // nothing newly claimed
        (!g.winding_down() && event == SessionEvent::Failed) ==> r.0.failed && r.0.winding_down()
            && r.0.claimed == g.claimed,
        // a send command names the step the machine is waiting on, always
        // below the packet count
        r.1 matches SessionCommand::SendPacket(k) ==> (r.0.phase matches SessionPhase::AwaitSend {
            pkt,
        } && pkt == k && k < r.0.packet_count),
        // release and reattach commands name the interface of the claim
        // record being wound down, and are recorded as issued
        r.1 matches SessionCommand::ReleaseInterface(iface) ==> (r.0.phase
            matches SessionPhase::AwaitRelease { idx } && iface == r.0.claimed@[idx as int].0
            && r.0.released@.last() == iface),
        r.1 matches SessionCommand::AttachDriver(iface) ==> (r.0.phase
            matches SessionPhase::AwaitAttach { idx } && iface == r.0.claimed@[idx as int].0
            && r.0.claimed@[idx as int].1 && r.0.reattached@.last() == iface),
{
    let mut g = g;
    match g.phase {
        SessionPhase::AwaitDriverStatus { idx } => {
            match event {
                SessionEvent::DriverStatus(active) => {
                    let iface = g.interfaces[idx];
                    if active {
                        g.phase = SessionPhase::AwaitDetach { idx };
                        (g, SessionCommand::DetachDriver(iface))
                    } else {
                        g.phase = SessionPhase::AwaitClaim { idx, had_driver: false };
                        (g, SessionCommand::ClaimInterface(iface))
                    }
                },
                _ => {
                    g.failed = true;
                    release_step(g, 0)
                },
            }
        },
        SessionPhase::AwaitDetach { idx } => {
            match event {
                SessionEvent::Done => {
                    let iface = g.interfaces[idx];
                    g.phase = SessionPhase::AwaitClaim { idx, had_driver: true };
                    (g, SessionCommand::ClaimInterface(iface))
                },
                _ => {
                    g.failed = true;
                    release_step(g, 0)
                },
            }
        },
        SessionPhase::AwaitClaim { idx, had_driver } => {
            match event {
                SessionEvent::Done => {
                    let ghost g0 = g;
                    let iface = g.interfaces[idx];
                    g.claimed.push((iface, had_driver));
                    proof {
                        assert forall|j: int| 0 <= j < g.claimed@.len() implies (
                        #[trigger] g.claimed@[j]).0 == g.interfaces@[j] by {
                            if j < g0.claimed@.len() {
                                assert(g0.claimed@[j].0 == g0.interfaces@[j]);
                            }
                        }
                        assert(g0.claimed@.is_prefix_of(g.claimed@));
                    }
                    let n = g.interfaces.len();
                    if idx + 1 < n {
                        begin_interface(g, idx + 1)
                    } else {
                        g.phase = SessionPhase::AwaitSend { pkt: 0 };
                        (g, SessionCommand::SendPacket(0))
                    }
                },
                _ => {
                    g.failed = true;
                    release_step(g, 0)
                },
            }
        },
        SessionPhase::AwaitSend { pkt } => {
            match event {
                SessionEvent::Done => {
                    if pkt + 1 < g.packet_count {
                        g.phase = SessionPhase::AwaitSend { pkt: pkt + 1 };
                        (g, SessionCommand::SendPacket(pkt + 1))
                    } else {
                        release_step(g, 0)
                    }
                },
                _ => {
                    g.failed = true;
                    release_step(g, 0)
                },
            }
        },
        SessionPhase::AwaitRelease { idx } => {
            let ghost g_entry = g;
            // a failed release is recorded but does not stop the wind-down:
            // the remaining interfaces are still released
            if let SessionEvent::Failed = event {
                g.failed = true;
            }
            proof {
                assert forall|j: int| 0 <= j < idx implies #[trigger] g.slot_handled(j) by {
                    assert(g_entry.slot_handled(j));
                }
                assert(g.released@.contains(g.claimed@[idx as int].0));
            }
            let ghost g0 = g;
            let (iface, had_driver) = g.claimed[idx];
            if had_driver {
                g.reattached.push(iface);
                g.phase = SessionPhase::AwaitAttach { idx };
                proof {
                    assert(g.reattached@[g.reattached@.len() - 1] == iface);
                    assert(g.reattached@.contains(iface));
                    assert forall|j: int| 0 <= j < idx implies #[trigger] g.slot_handled(j) by {
                        assert(g0.slot_handled(j));
                        if g.claimed@[j].1 {
                            lemma_contains_preserved_by_push(
                                g0.reattached@,
                                g.claimed@[j].0,
                                iface,
                            );
                        }
                    }
                }
                (g, SessionCommand::AttachDriver(iface))
            } else {
                let claimed_count = g.claimed.len();
                proof {
                    assert(idx < claimed_count);
                    assert(g.slot_handled(idx as int));
                    assert(g.handled_upto(idx + 1));
                }
                release_step(g, idx + 1)
            }
        },
        SessionPhase::AwaitAttach { idx } => {
            let ghost g_entry = g;
            // a failed reattach is likewise recorded, never masked
            if let SessionEvent::Failed = event {
                g.failed = true;
            }
            let claimed_count = g.claimed.len();
            proof {
                assert(idx < claimed_count);
                assert forall|j: int| 0 <= j < idx implies #[trigger] g.slot_handled(j) by {
                    assert(g_entry.slot_handled(j));
                }
                assert(g.slot_handled(idx as int));
                assert(g.handled_upto(idx + 1));
            }
            release_step(g, idx + 1)
        },
        SessionPhase::Finished => {
            // excluded by the precondition
            proof {
                assert(false);
            }
            (g, SessionCommand::Finish(false))
        },
    }
}

/// After a session ends — whether it succeeded or failed — every interface
/// claimed during it has had a release issued, and every interface whose
/// kernel driver was detached has had a reattach issued.
pub proof fn lemma_guard_releases_all(g: SessionGuard)
    requires
        g.inv(),
        g.phase is Finished,
    ensures
        forall|j: int|
            0 <= j < g.claimed@.len() ==> g.released@.contains((#[trigger] g.claimed@[j]).0),
        forall|j: int|
            0 <= j < g.claimed@.len() && (#[trigger] g.claimed@[j]).1 ==> g.reattached@.contains(
                g.claimed@[j].0,
            ),
{
    assert forall|j: int| 0 <= j < g.claimed@.len() implies g.released@.contains(
        (#[trigger] g.claimed@[j]).0,
    ) by {
        assert(g.slot_handled(j));
    }
    assert forall|j: int|
        0 <= j < g.claimed@.len() && (#[trigger] g.claimed@[j]).1 implies g.reattached@.contains(
        g.claimed@[j].0,
    ) by {
        assert(g.slot_handled(j));
    }
}

} // verus!
