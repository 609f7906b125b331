//! Interception driver client, modelled as session state machines.
//!
//! The kernel driver is reached through a character device whose
//! requests register and unregister toolchain binary paths. The device
//! calls themselves are performed by the embedding program; this module
//! holds every decision of the protocol — which request to issue next,
//! how to compensate after a mid-sequence failure, and what the final
//! outcome is — and proves the registration and rollback invariants
//! over an abstract model of the driver's table.

use vstd::prelude::*;
use crate::error::{DriverFailure, Error};
use crate::toolchain::{Compiler, ToolchainSet};

verus! {

/// The capability kinds the interception driver distinguishes.
#[derive(Clone, Copy, PartialEq, Eq, Structural, Debug)]
pub enum Capability {
    Compiler,
    Assembler,
    Link,
}

/// The position a capability takes in the fixed registration order.
pub open spec fn cap_index(c: Capability) -> int {
    match c {
        Capability::Compiler => 0,
        Capability::Assembler => 1,
        Capability::Link => 2,
    }
}

/// The capability at a given position of the fixed registration order.
pub open spec fn cap_at(i: int) -> Capability {
    if i == 0 {
        Capability::Compiler
    } else if i == 1 {
        Capability::Assembler
    } else {
        Capability::Link
    }
}

fn capability_at(i: u8) -> (c: Capability)
    requires
        i < 3,
    ensures
        c == cap_at(i as int),
{
    if i == 0 {
        Capability::Compiler
    } else if i == 1 {
        Capability::Assembler
    } else {
        Capability::Link
    }
}

/// The capabilities at positions `lo` (inclusive) up to `hi` (exclusive)
/// of the registration order.
pub open spec fn cap_range(lo: int, hi: int) -> Set<Capability> {
    Set::new(|c: Capability| lo <= cap_index(c) < hi)
}

/// The binary path a resolved toolchain registers for each capability
/// kind: the front-end itself, the assembler, and the link-helper.
pub open spec fn registered_path(ts: ToolchainSet, c: Capability) -> Seq<char> {
    match c {
        Capability::Compiler => ts.compiler@,
        Capability::Assembler => ts.assembler@,
        Capability::Link => ts.link_helper@,
    }
}

impl ToolchainSet {
    /// The binary path this toolchain registers for a capability kind.
    pub fn capability_path(&self, c: Capability) -> (r: String)
        ensures
            r@ == registered_path(*self, c),
    {
        match c {
            Capability::Compiler => self.compiler.clone(),
            Capability::Assembler => self.assembler.clone(),
            Capability::Link => self.link_helper.clone(),
        }
    }
}

/// One request to the interception device: register or unregister the
/// given capability with the given binary path.
pub struct DriverCommand {
    pub register: bool,
    pub capability: Capability,
    pub path: String,
}

/// Where a hack session stands.
#[derive(Clone, Copy, PartialEq, Eq, Structural, Debug)]
pub enum HackPhase {
    /// Registering in the fixed order; the capabilities before `next`
    /// are registered.
    Registering { next: u8 },
    /// The register request at position `failed` was refused with
    /// `status`; the capabilities up to and including position `undo`
    /// are still registered, and compensating unregisters are being
    /// issued for them in reverse order, so the registered kinds stay a
    /// prefix of the fixed order throughout. `clean` records that every
    /// compensation so far succeeded.
    RollingBack { undo: u8, failed: u8, status: i32, clean: bool },
    /// All three capabilities are registered.
    Complete,
    /// The session failed at register step `failed` with `status`; if
    /// `clean`, every compensating unregister succeeded and nothing of
    /// this session is left registered.
    Failed { failed: u8, status: i32, clean: bool },
}

/// The phase a hack session starts in.
pub open spec fn hack_start() -> HackPhase {
    HackPhase::Registering { next: 0 }
}

pub open spec fn hack_phase_wf(ph: HackPhase) -> bool {
    match ph {
        HackPhase::Registering { next } => next <= 2,
        HackPhase::RollingBack { undo, failed, .. } => undo < failed <= 2,
        HackPhase::Complete => true,
        HackPhase::Failed { failed, .. } => failed <= 2,
    }
}

/// The request a hack session issues next — register or unregister of
/// which capability — or none when the session is finished.
pub open spec fn hack_pending(ph: HackPhase) -> Option<(bool, Capability)> {
    match ph {
        HackPhase::Registering { next } => Some((true, cap_at(next as int))),
        HackPhase::RollingBack { undo, .. } => Some((false, cap_at(undo as int))),
        HackPhase::Complete => None,
        HackPhase::Failed { .. } => None,
    }
}

/// How a hack session advances once the device answers its pending
/// request with `status` (negative means refused): registration moves
/// forward on success; a refused registration with earlier successful
/// registrations starts the compensating unregisters, issued in
/// reverse of the registration order, which always run to the end,
/// remembering in `clean` whether each of them succeeded.
pub open spec fn hack_step(ph: HackPhase, status: i32) -> HackPhase {
    match ph {
        HackPhase::Registering { next } => {
            if status >= 0 {
                if next == 2 {
                    HackPhase::Complete
                } else {
                    HackPhase::Registering { next: (next + 1) as u8 }
                }
            } else {
                if next == 0 {
                    HackPhase::Failed { failed: 0, status, clean: true }
                } else {
                    HackPhase::RollingBack {
                        undo: (next - 1) as u8,
                        failed: next,
                        status,
                        clean: true,
                    }
                }
            }
        },
        HackPhase::RollingBack { undo, failed, status: first, clean } => {
            if undo == 0 {
                HackPhase::Failed { failed, status: first, clean: clean && status >= 0 }
            } else {
                HackPhase::RollingBack {
                    undo: (undo - 1) as u8,
                    failed,
                    status: first,
                    clean: clean && status >= 0,
                }
            }
        },
        HackPhase::Complete => ph,
        HackPhase::Failed { .. } => ph,
    }
}

/// Whether every compensating unregister issued so far succeeded; while
/// this holds, `hack_registered` is exactly what the session holds
/// registered.
pub open spec fn hack_clean(ph: HackPhase) -> bool {
    match ph {
        HackPhase::RollingBack { clean, .. } => clean,
        HackPhase::Failed { clean, .. } => clean,
        _ => true,
    }
}

/// The capabilities a clean hack session currently holds registered,
/// assuming every reported status was truthful.
pub open spec fn hack_registered(ph: HackPhase) -> Set<Capability> {
    match ph {
        HackPhase::Registering { next } => cap_range(0, next as int),
        HackPhase::RollingBack { undo, .. } => cap_range(0, undo as int + 1),
        HackPhase::Complete => cap_range(0, 3),
        HackPhase::Failed { .. } => Set::empty(),
    }
}

/// Where an unhack session stands.
#[derive(Clone, Copy, PartialEq, Eq, Structural, Debug)]
pub enum UnhackPhase {
    /// Unregistering in the fixed order; the capabilities before `next`
    /// are already unregistered, those from `next` on still registered.
    Unregistering { next: u8 },
    /// All three capabilities are unregistered.
    Complete,
    /// The unregister request at position `failed` was refused with
    /// `status`; later unregistrations were not attempted, so the
    /// capabilities from `failed` on are still registered.
    Failed { failed: u8, status: i32 },
}

/// The phase an unhack session starts in.
pub open spec fn unhack_start() -> UnhackPhase {
    UnhackPhase::Unregistering { next: 0 }
}

pub open spec fn unhack_phase_wf(ph: UnhackPhase) -> bool {
    match ph {
        UnhackPhase::Unregistering { next } => next <= 2,
        UnhackPhase::Complete => true,
        UnhackPhase::Failed { failed, .. } => failed <= 2,
    }
}

/// The unregister request an unhack session issues next, or none when
/// the session is finished.
pub open spec fn unhack_pending(ph: UnhackPhase) -> Option<(bool, Capability)> {
    match ph {
        UnhackPhase::Unregistering { next } => Some((false, cap_at(next as int))),
        UnhackPhase::Complete => None,
        UnhackPhase::Failed { .. } => None,
    }
}

/// How an unhack session advances: unregistration moves forward on
/// success and stops at the first refused request, which is reported
/// rather than compensated.
pub open spec fn unhack_step(ph: UnhackPhase, status: i32) -> UnhackPhase {
    match ph {
        UnhackPhase::Unregistering { next } => {
            if status >= 0 {
                if next == 2 {
                    UnhackPhase::Complete
                } else {
                    UnhackPhase::Unregistering { next: (next + 1) as u8 }
                }
            } else {
                UnhackPhase::Failed { failed: next, status }
            }
        },
        UnhackPhase::Complete => ph,
        UnhackPhase::Failed { .. } => ph,
    }
}

/// The capabilities an unhack session still holds registered, assuming
/// it began with all three registered and every reported status was
/// truthful.
pub open spec fn unhack_registered(ph: UnhackPhase) -> Set<Capability> {
    match ph {
        UnhackPhase::Unregistering { next } => cap_range(next as int, 3),
        UnhackPhase::Complete => Set::empty(),
        UnhackPhase::Failed { failed, .. } => cap_range(failed as int, 3),
    }
}

/// How one answered request changes the driver's table, restricted to
/// this session's capabilities: a successful register adds the
/// capability, a successful unregister removes it, and a refused
/// request leaves the table as it was.
pub open spec fn apply_outcome(
    table: Set<Capability>,
    register: bool,
    c: Capability,
    status: i32,
) -> Set<Capability> {
    if status < 0 {
        table
    } else if register {
        table.insert(c)
    } else {
        table.remove(c)
    }
}

/// A hack session: the registration protocol of one toolchain with the
/// interception driver, decided step by step. The embedding program
/// issues each command to the device and reports back the status the
/// device returned; the session decides what follows.
pub struct HackSession {
    pub toolchain: ToolchainSet,
    pub phase: HackPhase,
}

impl HackSession {
    pub open spec fn wf(self) -> bool {
        hack_phase_wf(self.phase)
    }

    /// The next request to issue to the device, or none when the
    /// session is finished.
    pub fn next_command(&self) -> (r: Option<DriverCommand>)
        requires
            self.wf(),
        ensures
            (match hack_pending(self.phase) {
                None => r is None,
                Some(p) => r matches Some(cmd) && cmd.register == p.0 && cmd.capability == p.1
                    && cmd.path@ == registered_path(self.toolchain, p.1),
            }),
    {
        match self.phase {
            HackPhase::Registering { next } => {
                let c = capability_at(next);
                Some(DriverCommand {
                    register: true,
                    capability: c,
                    path: self.toolchain.capability_path(c),
                })
            },
            HackPhase::RollingBack { undo, .. } => {
                let c = capability_at(undo);
                Some(DriverCommand {
                    register: false,
                    capability: c,
                    path: self.toolchain.capability_path(c),
                })
            },
            HackPhase::Complete => None,
            HackPhase::Failed { .. } => None,
        }
    }

    /// Reports the status the device returned for the request last
    /// handed out; the session advances by the protocol's step relation.
    pub fn report(&mut self, status: i32)
        requires
            old(self).wf(),
            hack_pending(old(self).phase) is Some,
        ensures
            final(self).toolchain == old(self).toolchain,
            final(self).phase == hack_step(old(self).phase, status),
            final(self).wf(),
    {
        match self.phase {
            HackPhase::Registering { next } => {
                if status >= 0 {
                    if next == 2 {
                        self.phase = HackPhase::Complete;
                    } else {
                        self.phase = HackPhase::Registering { next: next + 1 };
                    }
                } else {
                    if next == 0 {
                        self.phase = HackPhase::Failed { failed: 0, status, clean: true };
                    } else {
                        self.phase = HackPhase::RollingBack {
                            undo: next - 1,
                            failed: next,
                            status,
                            clean: true,
                        };
                    }
                }
            },
            HackPhase::RollingBack { undo, failed, status: first, clean } => {
                if undo == 0 {
                    self.phase = HackPhase::Failed {
                        failed,
                        status: first,
                        clean: clean && status >= 0,
                    };
                } else {
                    self.phase = HackPhase::RollingBack {
                        undo: undo - 1,
                        failed,
                        status: first,
                        clean: clean && status >= 0,
                    };
                }
            },
            HackPhase::Complete => {
                proof {
                    assert(false);
                }
            },
            HackPhase::Failed { .. } => {
                proof {
                    assert(false);
                }
            },
        }
    }

    /// The outcome of a finished session: success when everything was
    /// registered; otherwise the capability and path whose registration
    /// was refused, the status the device returned, and whether the
    /// compensating unregisters all succeeded.
    pub fn outcome(&self) -> (r: Result<(), Error>)
        requires
            self.wf(),
            hack_pending(self.phase) is None,
        ensures
            r is Ok <==> self.phase == HackPhase::Complete,
            self.phase matches HackPhase::Failed { failed, status, clean } ==> (r matches Err(
                Error::Mod(
                    DriverFailure::Register { capability, path, status: st, rollback_complete },
                ),
            ) && capability == cap_at(failed as int) && path@ == registered_path(
                self.toolchain,
                cap_at(failed as int),
            ) && st == status && rollback_complete == clean),
    {
        match self.phase {
            HackPhase::Complete => Ok(()),
            HackPhase::Failed { failed, status, clean } => {
                let c = capability_at(failed);
                Err(Error::Mod(DriverFailure::Register {
                    capability: c,
                    path: self.toolchain.capability_path(c),
                    status,
                    rollback_complete: clean,
                }))
            },
            HackPhase::Registering { .. } => {
                proof {
                    assert(false);
                }
                Ok(())
            },
            HackPhase::RollingBack { .. } => {
                proof {
                    assert(false);
                }
                Ok(())
            },
        }
    }
}

/// An unhack session: the unregistration protocol of one toolchain,
/// issuing unregisters in the fixed order and stopping at the first
/// refusal.
pub struct UnhackSession {
    pub toolchain: ToolchainSet,
    pub phase: UnhackPhase,
}

impl UnhackSession {
    pub open spec fn wf(self) -> bool {
        unhack_phase_wf(self.phase)
    }

    /// The next request to issue to the device, or none when the
    /// session is finished.
    pub fn next_command(&self) -> (r: Option<DriverCommand>)
        requires
            self.wf(),
        ensures
            (match unhack_pending(self.phase) {
                None => r is None,
                Some(p) => r matches Some(cmd) && cmd.register == p.0 && cmd.capability == p.1
                    && cmd.path@ == registered_path(self.toolchain, p.1),
            }),
    {
        match self.phase {
            UnhackPhase::Unregistering { next } => {
                let c = capability_at(next);
                Some(DriverCommand {
                    register: false,
                    capability: c,
                    path: self.toolchain.capability_path(c),
                })
            },
            UnhackPhase::Complete => None,
            UnhackPhase::Failed { .. } => None,
        }
    }

    /// Reports the status the device returned for the request last
    /// handed out; the session advances by the protocol's step relation.
    pub fn report(&mut self, status: i32)
        requires
            old(self).wf(),
            unhack_pending(old(self).phase) is Some,
        ensures
            final(self).toolchain == old(self).toolchain,
            final(self).phase == unhack_step(old(self).phase, status),
            final(self).wf(),
    {
        match self.phase {
            UnhackPhase::Unregistering { next } => {
                if status >= 0 {
                    if next == 2 {
                        self.phase = UnhackPhase::Complete;
                    } else {
                        self.phase = UnhackPhase::Unregistering { next: next + 1 };
                    }
                } else {
                    self.phase = UnhackPhase::Failed { failed: next, status };
                }
            },
            UnhackPhase::Complete => {
                proof {
                    assert(false);
                }
            },
            UnhackPhase::Failed { .. } => {
                proof {
                    assert(false);
                }
            },
        }
    }

    /// The outcome of a finished session: success when everything was
    /// unregistered; otherwise the capability and path whose
    /// unregistration was refused and the status the device returned.
    pub fn outcome(&self) -> (r: Result<(), Error>)
        requires
            self.wf(),
            unhack_pending(self.phase) is None,
        ensures
            r is Ok <==> self.phase == UnhackPhase::Complete,
            self.phase matches UnhackPhase::Failed { failed, status } ==> (r matches Err(
                Error::Mod(DriverFailure::Unregister { capability, path, status: st }),
            ) && capability == cap_at(failed as int) && path@ == registered_path(
                self.toolchain,
                cap_at(failed as int),
            ) && st == status),
    {
        match self.phase {
            UnhackPhase::Complete => Ok(()),
            UnhackPhase::Failed { failed, status } => {
                let c = capability_at(failed);
                Err(Error::Mod(DriverFailure::Unregister {
                    capability: c,
                    path: self.toolchain.capability_path(c),
                    status,
                }))
            },
            UnhackPhase::Unregistering { .. } => {
                proof {
                    assert(false);
                }
                Ok(())
            },
        }
    }
}

/// The driver's table and the hack session's phase after the session's
/// pending requests are answered one by one with the given statuses,
/// until the statuses run out or the session finishes.
pub open spec fn run_hack(
    table: Set<Capability>,
    ph: HackPhase,
    statuses: Seq<i32>,
) -> (Set<Capability>, HackPhase)
    decreases statuses.len(),
{
    if statuses.len() == 0 || hack_pending(ph) is None {
        (table, ph)
    } else {
        let p = hack_pending(ph)->Some_0;
        run_hack(
            apply_outcome(table, p.0, p.1, statuses[0]),
            hack_step(ph, statuses[0]),
            statuses.subrange(1, statuses.len() as int),
        )
    }
}

/// The driver's table and the unhack session's phase after the
/// session's pending requests are answered one by one with the given
/// statuses, until the statuses run out or the session finishes.
pub open spec fn run_unhack(
    table: Set<Capability>,
    ph: UnhackPhase,
    statuses: Seq<i32>,
) -> (Set<Capability>, UnhackPhase)
    decreases statuses.len(),
{
    if statuses.len() == 0 || unhack_pending(ph) is None {
        (table, ph)
    } else {
        let p = unhack_pending(ph)->Some_0;
        run_unhack(
            apply_outcome(table, p.0, p.1, statuses[0]),
            unhack_step(ph, statuses[0]),
            statuses.subrange(1, statuses.len() as int),
        )
    }
}

/// The soundness of the rollback protocol: while a hack session is
/// clean, the driver's table is exactly the pre-hack table joined with
/// what the session holds registered, and every answered request
/// preserves this, whatever status the device returns. (Once a
/// compensating unregister is refused the session stops being clean and
/// makes no further claim about the table.)
pub proof fn lemma_hack_step_preserves_table(
    t0: Set<Capability>,
    table: Set<Capability>,
    ph: HackPhase,
    status: i32,
)
    requires
        hack_phase_wf(ph),
        hack_clean(ph),
        !t0.contains(Capability::Compiler),
        !t0.contains(Capability::Assembler),
        !t0.contains(Capability::Link),
        table == t0.union(hack_registered(ph)),
        hack_pending(ph) is Some,
    ensures
        hack_phase_wf(hack_step(ph, status)),
        hack_clean(hack_step(ph, status)) ==> apply_outcome(
            table,
            hack_pending(ph)->Some_0.0,
            hack_pending(ph)->Some_0.1,
            status,
        ) == t0.union(hack_registered(hack_step(ph, status))),
{
    let p = hack_pending(ph)->Some_0;
    let after = apply_outcome(table, p.0, p.1, status);
    let ph2 = hack_step(ph, status);
    if hack_clean(ph2) {
        assert(after =~= t0.union(hack_registered(ph2)));
    }
}

/// At every point of a clean hack session the registered kinds form a
/// prefix of the fixed order {compiler, assembler, link}: there is a
/// bound `k` such that exactly the first `k` kinds are registered.
pub proof fn lemma_hack_registered_is_prefix(ph: HackPhase)
    requires
        hack_phase_wf(ph),
        hack_clean(ph),
    ensures
        exists|k: int| 0 <= k <= 3 && hack_registered(ph) == cap_range(0, k),
{
    match ph {
        HackPhase::Registering { next } => {
            assert(0 <= next as int <= 3 && hack_registered(ph) == cap_range(0, next as int));
        },
        HackPhase::RollingBack { undo, .. } => {
            assert(0 <= undo as int + 1 <= 3 && hack_registered(ph) == cap_range(
                0,
                undo as int + 1,
            ));
        },
        HackPhase::Complete => {
            assert(0 <= 3 <= 3 && hack_registered(ph) == cap_range(0, 3));
        },
        HackPhase::Failed { .. } => {
            assert(hack_registered(ph) =~= cap_range(0, 0));
            assert(0 <= 0 <= 3 && hack_registered(ph) == cap_range(0, 0));
        },
    }
}

/// `hack` followed immediately by `unhack` on the same toolchain
/// restores the driver's registration table to its pre-hack contents,
/// assuming no intervening failures: the device accepts all three
/// registrations and then all three unregistrations.
pub proof fn lemma_hack_unhack_round_trip(t0: Set<Capability>, reg: Seq<i32>, unreg: Seq<i32>)
    requires
        !t0.contains(Capability::Compiler),
        !t0.contains(Capability::Assembler),
        !t0.contains(Capability::Link),
        reg.len() == 3,
        unreg.len() == 3,
        forall|i: int| 0 <= i < 3 ==> reg[i] >= 0,
        forall|i: int| 0 <= i < 3 ==> unreg[i] >= 0,
    ensures
        run_hack(t0, hack_start(), reg).1 == HackPhase::Complete,
        run_unhack(run_hack(t0, hack_start(), reg).0, unhack_start(), unreg).1
            == UnhackPhase::Complete,
        run_unhack(run_hack(t0, hack_start(), reg).0, unhack_start(), unreg).0 == t0,
{
    let ph0 = hack_start();
    let ph1 = hack_step(ph0, reg[0]);
    let ph2 = hack_step(ph1, reg[1]);
    let u1 = apply_outcome(t0, true, Capability::Compiler, reg[0]);
    let u2 = apply_outcome(u1, true, Capability::Assembler, reg[1]);
    let u3 = apply_outcome(u2, true, Capability::Link, reg[2]);
    assert(reg.subrange(1, 3) =~= seq![reg[1], reg[2]]);
    assert(seq![reg[1], reg[2]].subrange(1, 2) =~= seq![reg[2]]);
    assert(seq![reg[2]].subrange(1, 1) =~= Seq::<i32>::empty());
    assert(run_hack(t0, ph0, reg) == run_hack(u1, ph1, seq![reg[1], reg[2]]));
    assert(run_hack(u1, ph1, seq![reg[1], reg[2]]) == run_hack(u2, ph2, seq![reg[2]]));
    assert(run_hack(u2, ph2, seq![reg[2]]) == run_hack(
        u3,
        HackPhase::Complete,
        Seq::<i32>::empty(),
    ));
    assert(run_hack(u3, HackPhase::Complete, Seq::<i32>::empty()) == (u3, HackPhase::Complete));
    assert(run_hack(t0, ph0, reg) == (u3, HackPhase::Complete));

    let q0 = unhack_start();
    let q1 = unhack_step(q0, unreg[0]);
    let q2 = unhack_step(q1, unreg[1]);
    let v1 = apply_outcome(u3, false, Capability::Compiler, unreg[0]);
    let v2 = apply_outcome(v1, false, Capability::Assembler, unreg[1]);
    let v3 = apply_outcome(v2, false, Capability::Link, unreg[2]);
    assert(unreg.subrange(1, 3) =~= seq![unreg[1], unreg[2]]);
    assert(seq![unreg[1], unreg[2]].subrange(1, 2) =~= seq![unreg[2]]);
    assert(seq![unreg[2]].subrange(1, 1) =~= Seq::<i32>::empty());
    assert(run_unhack(u3, q0, unreg) == run_unhack(v1, q1, seq![unreg[1], unreg[2]]));
    assert(run_unhack(v1, q1, seq![unreg[1], unreg[2]]) == run_unhack(v2, q2, seq![unreg[2]]));
    assert(run_unhack(v2, q2, seq![unreg[2]]) == run_unhack(
        v3,
        UnhackPhase::Complete,
        Seq::<i32>::empty(),
    ));
    assert(run_unhack(v3, UnhackPhase::Complete, Seq::<i32>::empty()) == (
        v3,
        UnhackPhase::Complete,
    ));
    assert(run_unhack(u3, q0, unreg) == (v3, UnhackPhase::Complete));
    assert(v3 =~= t0);
}

/// If registering the assembler is refused, the compiler registration
/// performed just before it is rolled back before the session ends: the
/// single compensating request is an unregister of the compiler, and
/// once the device accepts it the table is back to its pre-hack
/// contents and the session finishes failed but clean.
pub proof fn lemma_assembler_failure_rolls_back_compiler(
    t0: Set<Capability>,
    s1: i32,
    s2: i32,
    s3: i32,
)
    requires
        !t0.contains(Capability::Compiler),
        !t0.contains(Capability::Assembler),
        !t0.contains(Capability::Link),
        s1 >= 0,
        s2 < 0,
        s3 >= 0,
    ensures
        hack_pending(hack_step(hack_step(hack_start(), s1), s2)) == Some(
            (false, Capability::Compiler),
        ),
        run_hack(t0, hack_start(), seq![s1, s2, s3]).1 == (HackPhase::Failed {
            failed: 1u8,
            status: s2,
            clean: true,
        }),
        run_hack(t0, hack_start(), seq![s1, s2, s3]).0 == t0,
{
    let q = seq![s1, s2, s3];
    let ph0 = hack_start();
    let ph1 = hack_step(ph0, s1);
    let ph2 = hack_step(ph1, s2);
    let u1 = apply_outcome(t0, true, Capability::Compiler, s1);
    let u2 = apply_outcome(u1, true, Capability::Assembler, s2);
    let u3 = apply_outcome(u2, false, Capability::Compiler, s3);
    assert(q.subrange(1, 3) =~= seq![s2, s3]);
    assert(seq![s2, s3].subrange(1, 2) =~= seq![s3]);
    assert(seq![s3].subrange(1, 1) =~= Seq::<i32>::empty());
    assert(run_hack(t0, ph0, q) == run_hack(u1, ph1, seq![s2, s3]));
    assert(run_hack(u1, ph1, seq![s2, s3]) == run_hack(u2, ph2, seq![s3]));
    let ph3 = hack_step(ph2, s3);
    assert(run_hack(u2, ph2, seq![s3]) == run_hack(u3, ph3, Seq::<i32>::empty()));
    assert(run_hack(u3, ph3, Seq::<i32>::empty()) == (u3, ph3));
    assert(run_hack(t0, ph0, q) == (u3, ph3));
    assert(u3 =~= t0);
}

/// If registering the link-helper is refused, both the compiler and the
/// assembler registrations performed before it are rolled back, in
/// reverse order — assembler before compiler — before the session
/// ends; once the device accepts both compensating unregisters the
/// table is back to its pre-hack contents and the session finishes
/// failed but clean.
pub proof fn lemma_link_helper_failure_rolls_back_both(
    t0: Set<Capability>,
    s1: i32,
    s2: i32,
    s3: i32,
    s4: i32,
    s5: i32,
)
    requires
        !t0.contains(Capability::Compiler),
        !t0.contains(Capability::Assembler),
        !t0.contains(Capability::Link),
        s1 >= 0,
        s2 >= 0,
        s3 < 0,
        s4 >= 0,
        s5 >= 0,
    ensures
        hack_pending(hack_step(hack_step(hack_step(hack_start(), s1), s2), s3)) == Some(
            (false, Capability::Assembler),
        ),
        hack_pending(hack_step(hack_step(hack_step(hack_step(hack_start(), s1), s2), s3), s4))
            == Some((false, Capability::Compiler)),
        run_hack(t0, hack_start(), seq![s1, s2, s3, s4, s5]).1 == (HackPhase::Failed {
            failed: 2u8,
            status: s3,
            clean: true,
        }),
        run_hack(t0, hack_start(), seq![s1, s2, s3, s4, s5]).0 == t0,
{
    let q = seq![s1, s2, s3, s4, s5];
    let ph0 = hack_start();
    let ph1 = hack_step(ph0, s1);
    let ph2 = hack_step(ph1, s2);
    let ph3 = hack_step(ph2, s3);
    let ph4 = hack_step(ph3, s4);
    let u1 = apply_outcome(t0, true, Capability::Compiler, s1);
    let u2 = apply_outcome(u1, true, Capability::Assembler, s2);
    let u3 = apply_outcome(u2, true, Capability::Link, s3);
    let u4 = apply_outcome(u3, false, Capability::Assembler, s4);
    let u5 = apply_outcome(u4, false, Capability::Compiler, s5);
    assert(q.subrange(1, 5) =~= seq![s2, s3, s4, s5]);
    assert(seq![s2, s3, s4, s5].subrange(1, 4) =~= seq![s3, s4, s5]);
    assert(seq![s3, s4, s5].subrange(1, 3) =~= seq![s4, s5]);
    assert(seq![s4, s5].subrange(1, 2) =~= seq![s5]);
    assert(seq![s5].subrange(1, 1) =~= Seq::<i32>::empty());
    assert(run_hack(t0, ph0, q) == run_hack(u1, ph1, seq![s2, s3, s4, s5]));
    assert(run_hack(u1, ph1, seq![s2, s3, s4, s5]) == run_hack(u2, ph2, seq![s3, s4, s5]));
    assert(run_hack(u2, ph2, seq![s3, s4, s5]) == run_hack(u3, ph3, seq![s4, s5]));
    assert(run_hack(u3, ph3, seq![s4, s5]) == run_hack(u4, ph4, seq![s5]));
    let ph5 = hack_step(ph4, s5);
    assert(run_hack(u4, ph4, seq![s5]) == run_hack(u5, ph5, Seq::<i32>::empty()));
    assert(run_hack(u5, ph5, Seq::<i32>::empty()) == (u5, ph5));
    assert(run_hack(t0, ph0, q) == (u5, ph5));
    assert(u5 =~= t0);
}

/// Judges the opening of the interception device: a negative
/// descriptor means the device could not be opened, which is
/// immediately fatal.
pub fn open_outcome(fd: i32, device: String) -> (r: Result<i32, Error>)
    ensures
        r is Ok <==> fd >= 0,
        r matches Ok(d) ==> d == fd,
        r matches Err(e) ==> (e matches Error::Mod(DriverFailure::Open { device: d }) && d
            == device),
{
    if fd >= 0 {
        Ok(fd)
    } else {
        Err(Error::Mod(DriverFailure::Open { device }))
    }
}

impl Compiler {
    /// Begins the registration protocol for the resolved toolchain: the
    /// compiler, assembler and link-helper paths are registered in that
    /// fixed order, with compensating unregisters after a mid-sequence
    /// refusal.
    pub fn hack(&self) -> (s: HackSession)
        requires
            self.is_resolved(),
        ensures
            s.toolchain == self.toolchain->Some_0,
            s.phase == hack_start(),
            s.wf(),
    {
        HackSession {
            toolchain: self.toolchain.as_ref().unwrap().clone(),
            phase: HackPhase::Registering { next: 0 },
        }
    }

    /// Begins the unregistration protocol for the resolved toolchain:
    /// unregisters are issued in the fixed order and stop at the first
    /// refusal, which callers must treat as requiring operator
    /// intervention on the device.
    pub fn unhack(&self) -> (s: UnhackSession)
        requires
            self.is_resolved(),
        ensures
            s.toolchain == self.toolchain->Some_0,
            s.phase == unhack_start(),
            s.wf(),
    {
        UnhackSession {
            toolchain: self.toolchain.as_ref().unwrap().clone(),
            phase: UnhackPhase::Unregistering { next: 0 },
        }
    }
}

} // verus!
