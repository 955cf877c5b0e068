use vstd::prelude::*;

verus! {

/// Stored liveness flag of a reachable device.
pub const ONLINE: bool = true;

/// Stored liveness flag of an unreachable device.
pub const OFFLINE: bool = false;

/// A registered device, as read from the roster.
#[derive(Debug)]
pub struct DeviceModel {
    pub id: u128,
    pub name: String,
    pub ip: String,
    pub mac: String,
    pub status: bool,
}

/// A failure reported by the relational store.
#[derive(Debug)]
pub struct StoreError {
    pub message: String,
}

/// Outcome of one reachability probe. `ProbeError` is a transport
/// malfunction, kept apart from a target that did not answer.
#[derive(Debug, Clone, Copy)]
pub enum ProbeOutcome {
    Reachable,
    Unreachable,
    ProbeError,
}

/// The edge-triggered rule: a new status exists only when the probe
/// disagrees with the stored one.
pub open spec fn transition(stored: bool, outcome: ProbeOutcome) -> Option<bool> {
    match outcome {
        ProbeOutcome::Reachable => if stored == OFFLINE { Some(ONLINE) } else { None },
        ProbeOutcome::Unreachable => if stored == ONLINE { Some(OFFLINE) } else { None },
        ProbeOutcome::ProbeError => None,
    }
}

/// The stored status once the transition (if any) has been persisted.
pub open spec fn status_after(stored: bool, outcome: ProbeOutcome) -> bool {
    match transition(stored, outcome) {
        Some(s) => s,
        None => stored,
    }
}

/// Decides the status to persist for a device, if any.
pub fn next_status(stored: bool, outcome: ProbeOutcome) -> (r: Option<bool>)
    ensures
        r == transition(stored, outcome),
{
    match outcome {
        ProbeOutcome::Reachable => if stored == OFFLINE { Some(ONLINE) } else { None },
        ProbeOutcome::Unreachable => if stored == ONLINE { Some(OFFLINE) } else { None },
        ProbeOutcome::ProbeError => None,
    }
}

/// Where a sweep stands within its cycle.
#[derive(Debug, Clone, Copy)]
pub enum SweepPhase {
    /// Between cycles.
    Idle,
    /// Waiting for the device roster.
    Loading,
    /// Waiting for the probe of the current device.
    Probing,
    /// Waiting for the write-back of `status` for the current device.
    Writing { status: bool },
}

/// What the runtime reports back to the sweep.
#[derive(Debug)]
pub enum SweepEvent {
    /// The scan interval elapsed.
    Tick,
    /// The roster read completed.
    Roster(Result<Vec<DeviceModel>, StoreError>),
    /// The probe of the current device completed.
    Probed(ProbeOutcome),
    /// The status write-back of the current device completed.
    Written(Result<(), StoreError>),
}

/// What the sweep asks the runtime to do next.
#[derive(Debug)]
pub enum SweepAction {
    LoadRoster,
    Probe { id: u128, ip: String },
    Write { id: u128, status: bool },
    /// The cycle is over: wait for the next tick.
    Sleep,
    /// The roster could not be read: the cycle is abandoned and the error
    /// goes to the supervisor.
    Abort(StoreError),
}

/// A sweep, mathematically: the roster of this cycle, the index of the
/// current device, and the phase.
pub struct SweepView {
    pub devices: Seq<DeviceModel>,
    pub pos: nat,
    pub phase: SweepPhase,
}

pub open spec fn sweep_wf(s: SweepView) -> bool {
    match s.phase {
        SweepPhase::Probing | SweepPhase::Writing { .. } => s.pos < s.devices.len(),
        _ => s.pos <= s.devices.len(),
    }
}

/// The request that a sweep in state `s` is waiting on.
pub open spec fn pending(s: SweepView) -> SweepAction {
    match s.phase {
        SweepPhase::Idle => SweepAction::Sleep,
        SweepPhase::Loading => SweepAction::LoadRoster,
        SweepPhase::Probing => SweepAction::Probe { id: s.devices[s.pos as int].id, ip: s.devices[s.pos as int].ip },
        SweepPhase::Writing { status } => SweepAction::Write { id: s.devices[s.pos as int].id, status },
    }
}

/// Moves on to device `pos`, or ends the cycle when none is left.
pub open spec fn advance(devices: Seq<DeviceModel>, pos: nat) -> SweepView {
    if pos < devices.len() {
        SweepView { devices, pos, phase: SweepPhase::Probing }
    } else {
        SweepView { devices, pos: devices.len(), phase: SweepPhase::Idle }
    }
}

/// The state after event `e`. An event that the current phase does not
/// wait for leaves the state as it is.
pub open spec fn next_view(s: SweepView, e: SweepEvent) -> SweepView {
    match e {
        SweepEvent::Tick => if s.phase is Idle {
            SweepView { devices: s.devices, pos: 0, phase: SweepPhase::Loading }
        } else {
            s
        },
        SweepEvent::Roster(r) => if s.phase is Loading {
            match r {
                Ok(devs) => advance(devs@, 0),
                Err(_) => SweepView { devices: Seq::empty(), pos: 0, phase: SweepPhase::Idle },
            }
        } else {
            s
        },
        SweepEvent::Probed(o) => if s.phase is Probing {
            match transition(s.devices[s.pos as int].status, o) {
                Some(st) => SweepView {
                    devices: s.devices,
                    pos: s.pos,
                    phase: SweepPhase::Writing { status: st },
                },
                None => advance(s.devices, s.pos + 1),
            }
        } else {
            s
        },
        SweepEvent::Written(_) => if s.phase is Writing {
            advance(s.devices, s.pos + 1)
        } else {
            s
        },
    }
}

/// The action after event `e`: an abort on a failed roster read, else the
/// request that the new state waits on.
pub open spec fn next_action(s: SweepView, e: SweepEvent) -> SweepAction {
    match e {
        SweepEvent::Roster(Err(err)) if s.phase is Loading => SweepAction::Abort(err),
        _ => pending(next_view(s, e)),
    }
}

/// One liveness monitor: the decisions of its sweep cycles.
pub struct Sweep {
    devices: Vec<DeviceModel>,
    pos: usize,
    phase: SweepPhase,
}

impl View for Sweep {
    type V = SweepView;

    closed spec fn view(&self) -> SweepView {
        SweepView { devices: self.devices@, pos: self.pos as nat, phase: self.phase }
    }
}

impl Sweep {
    pub open spec fn wf(&self) -> bool {
        sweep_wf(self@)
    }

    /// A sweep between cycles, with no roster loaded.
    pub fn new() -> (r: Self)
        ensures
            r.wf(),
            r@.devices.len() == 0,
            r@.pos == 0,
            r@.phase is Idle,
    {
        Sweep { devices: Vec::new(), pos: 0, phase: SweepPhase::Idle }
    }

    pub fn phase(&self) -> (r: SweepPhase)
        ensures
            r == self@.phase,
    {
        self.phase
    }

    /// The request this sweep is waiting on.
    pub fn pending(&self) -> (r: SweepAction)
        requires
            self.wf(),
        ensures
            r == pending(self@),
    {
        match self.phase {
            SweepPhase::Idle => SweepAction::Sleep,
            SweepPhase::Loading => SweepAction::LoadRoster,
            SweepPhase::Probing => {
                let d = &self.devices[self.pos];
                SweepAction::Probe { id: d.id, ip: d.ip.clone() }
            },
            SweepPhase::Writing { status } => SweepAction::Write { id: self.devices[self.pos].id, status },
        }
    }

    fn advance_to(&mut self, pos: usize)
        requires
            pos <= old(self).devices.len(),
        ensures
            final(self)@ == advance(old(self)@.devices, pos as nat),
    {
        if pos < self.devices.len() {
            self.pos = pos;
            self.phase = SweepPhase::Probing;
        } else {
            self.pos = self.devices.len();
            self.phase = SweepPhase::Idle;
        }
    }

    /// Feeds one event to the sweep and returns what the runtime must do next.
    pub fn step(&mut self, e: SweepEvent) -> (r: SweepAction)
        requires
            old(self).wf(),
        ensures
            final(self).wf(),
            final(self)@ == next_view(old(self)@, e),
            r == next_action(old(self)@, e),
    {
        match e {
            SweepEvent::Tick => {
                if let SweepPhase::Idle = self.phase {
                    self.pos = 0;
                    self.phase = SweepPhase::Loading;
                }
            },
            SweepEvent::Roster(res) => {
                if let SweepPhase::Loading = self.phase {
                    match res {
                        Ok(devs) => {
                            self.devices = devs;
                            self.advance_to(0);
                        },
                        Err(err) => {
                            self.devices = Vec::new();
                            self.pos = 0;
                            self.phase = SweepPhase::Idle;
                            return SweepAction::Abort(err);
                        },
                    }
                }
            },
            SweepEvent::Probed(o) => {
                if let SweepPhase::Probing = self.phase {
                    match next_status(self.devices[self.pos].status, o) {
                        Some(st) => {
                            self.phase = SweepPhase::Writing { status: st };
                        },
                        None => {
                            let n = self.devices.len();
                            assert(self.pos < n);
                            let p = self.pos + 1;
                            self.advance_to(p);
                        },
                    }
                }
            },
            SweepEvent::Written(_) => {
                if let SweepPhase::Writing { .. } = self.phase {
                    let n = self.devices.len();
                    assert(self.pos < n);
                    let p = self.pos + 1;
                    self.advance_to(p);
                }
            },
        }
        self.pending()
    }
}

/// Writes are edge-triggered: once a probe outcome has been persisted, the
/// same outcome again asks for no write. In particular an offline device
/// that answers twice is written once, to online, and then left alone.
pub proof fn lemma_repeated_outcome_is_no_op(stored: bool, outcome: ProbeOutcome)
    ensures
        transition(status_after(stored, outcome), outcome) is None,
        stored == OFFLINE ==> transition(stored, ProbeOutcome::Reachable) == Some(ONLINE),
        stored == ONLINE ==> transition(stored, ProbeOutcome::Reachable) is None,
{
}

/// A write-back's outcome does not change the rest of the sweep: success
/// or failure, the sweep goes on with the next device of the roster (or
/// ends the cycle after the last one).
pub proof fn lemma_write_failure_is_isolated(
    s: SweepView,
    a: Result<(), StoreError>,
    b: Result<(), StoreError>,
)
    requires
        sweep_wf(s),
        s.phase is Writing,
    ensures
        next_view(s, SweepEvent::Written(a)) == next_view(s, SweepEvent::Written(b)),
        next_action(s, SweepEvent::Written(a)) == next_action(s, SweepEvent::Written(b)),
        next_view(s, SweepEvent::Written(a)).devices == s.devices,
        s.pos + 1 < s.devices.len() ==> next_action(s, SweepEvent::Written(a)) == (SweepAction::Probe {
            id: s.devices[s.pos + 1int].id,
            ip: s.devices[s.pos + 1int].ip,
        }),
        s.pos + 1 == s.devices.len() ==> next_action(s, SweepEvent::Written(a)) is Sleep,
{
}

/// A failed roster read ends the cycle: the error is handed back, no device
/// is left to probe, and until the next tick no event `e` leads to a probe
/// or a write.
pub proof fn lemma_roster_failure_aborts(s: SweepView, err: StoreError, e: SweepEvent)
    requires
        s.phase is Loading,
        !(e is Tick),
    ensures
        next_action(s, SweepEvent::Roster(Err(err))) == SweepAction::Abort(err),
        next_view(s, SweepEvent::Roster(Err(err))).phase is Idle,
        next_view(s, SweepEvent::Roster(Err(err))).devices.len() == 0,
        next_view(next_view(s, SweepEvent::Roster(Err(err))), e) == next_view(
            s,
            SweepEvent::Roster(Err(err)),
        ),
        next_action(next_view(s, SweepEvent::Roster(Err(err))), e) is Sleep,
{
}

} // verus!
