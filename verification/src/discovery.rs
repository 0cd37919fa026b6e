//! The discovery cycle: which devices a sweep has found, the cell that holds
//! the latest set of them, and the steps of the driver that sweeps forever.

use vstd::prelude::*;
use crate::address::DeviceAddress;
use crate::network::IpRange;
use crate::network::NetworkRange;
use crate::probe::judge_probe;
use crate::probe::probe_verdict;
use crate::probe::ProbeResponse;

verus! {

/// The seconds the driver rests between two sweeps.
pub const SCAN_INTERVAL_SECS: u64 = 300;

/// The devices known at one point in time, in the order in which the sweep
/// found them. A set is built whole and never changed afterwards.
#[derive(Debug, Clone, PartialEq, Eq)]
pub struct DeviceSet {
    devices: Vec<DeviceAddress>,
}

impl View for DeviceSet {
    type V = Seq<DeviceAddress>;

    closed spec fn view(&self) -> Seq<DeviceAddress> {
        self.devices@
    }
}

impl DeviceSet {
    /// The set without devices.
    pub fn empty() -> (set: DeviceSet)
        ensures
            set@ == Seq::<DeviceAddress>::empty(),
    {
        DeviceSet { devices: Vec::new() }
    }

    /// The set of the given devices, in their order.
    pub fn from_devices(devices: Vec<DeviceAddress>) -> (set: DeviceSet)
        ensures
            set@ == devices@,
    {
        DeviceSet { devices }
    }

    /// The number of devices.
    pub fn len(&self) -> (count: usize)
        ensures
            count == self@.len(),
    {
        self.devices.len()
    }

    /// Whether the set holds no device.
    pub fn is_empty(&self) -> (none: bool)
        ensures
            none == (self@.len() == 0),
    {
        self.devices.len() == 0
    }

    /// The device at `index`.
    pub fn get(&self, index: usize) -> (device: Option<DeviceAddress>)
        ensures
            index < self@.len() ==> device == Some(self@[index as int]),
            index >= self@.len() ==> device.is_none(),
    {
        if index < self.devices.len() {
            Some(self.devices[index])
        } else {
            None
        }
    }

    /// A copy of the set that later publications cannot touch.
    pub fn snapshot(&self) -> (copy: DeviceSet)
        ensures
            copy@ == self@,
    {
        let mut devices: Vec<DeviceAddress> = Vec::new();
        let mut at: usize = 0;
        while at < self.devices.len()
            invariant
                at <= self.devices.len(),
                devices@ == self.devices@.take(at as int),
            decreases self.devices.len() - at,
        {
            devices.push(self.devices[at]);
            at = at + 1;
            assert(devices@ =~= self.devices@.take(at as int));
        }
        assert(self.devices@.take(at as int) =~= self.devices@);
        DeviceSet { devices }
    }
}

/// The devices among the candidates of a sweep: the addresses of the responses
/// that pass the fingerprint check, in the order of the responses.
pub open spec fn accepted_devices(responses: Seq<ProbeResponse>) -> Seq<DeviceAddress>
    decreases responses.len(),
{
    if responses.len() == 0 {
        Seq::<DeviceAddress>::empty()
    } else {
        let earlier = accepted_devices(responses.drop_last());
        match probe_verdict(responses.last()) {
            Ok(device) => earlier.push(device),
            Err(_) => earlier,
        }
    }
}

/// Collects the devices of a sweep from the responses to its probes.
pub fn collect_devices(responses: &Vec<ProbeResponse>) -> (set: DeviceSet)
    ensures
        set@ == accepted_devices(responses@),
{
    let mut devices: Vec<DeviceAddress> = Vec::new();
    let mut at: usize = 0;
    assert(responses@.take(0) =~= Seq::<ProbeResponse>::empty());
    while at < responses.len()
        invariant
            at <= responses.len(),
            devices@ == accepted_devices(responses@.take(at as int)),
        decreases responses.len() - at,
    {
        proof {
            let upto = responses@.take(at + 1);
            assert(upto.drop_last() =~= responses@.take(at as int));
            assert(upto.last() == responses@[at as int]);
        }
        match judge_probe(&responses[at]) {
            Ok(device) => {
                devices.push(device);
            },
            Err(_) => {},
        }
        at = at + 1;
    }
    assert(responses@.take(at as int) =~= responses@);
    DeviceSet { devices }
}

/// A device is in the set of a sweep exactly if one of the responses passes
/// the fingerprint check with its address; a response that is rejected adds
/// nothing, so the set is never larger than the number of responses.
pub proof fn lemma_accepted_devices(responses: Seq<ProbeResponse>)
    ensures
        accepted_devices(responses).len() <= responses.len(),
        forall|device: DeviceAddress|
            accepted_devices(responses).contains(device) <==> exists|i: int|
                0 <= i < responses.len() && #[trigger] probe_verdict(responses[i]) == Ok::<
                    DeviceAddress,
                    crate::probe::ProbeRejection,
                >(device),
    decreases responses.len(),
{
    if responses.len() > 0 {
        let earlier = responses.drop_last();
        lemma_accepted_devices(earlier);
        let found = accepted_devices(responses);
        assert forall|device: DeviceAddress| found.contains(device) implies exists|i: int|
            0 <= i < responses.len() && #[trigger] probe_verdict(responses[i]) == Ok::<
                DeviceAddress,
                crate::probe::ProbeRejection,
            >(device) by {
            let at = choose|k: int| 0 <= k < found.len() && found[k] == device;
            if at < accepted_devices(earlier).len() {
                assert(accepted_devices(earlier)[at] == device);
                assert(accepted_devices(earlier).contains(device));
                let i = choose|i: int|
                    0 <= i < earlier.len() && #[trigger] probe_verdict(earlier[i]) == Ok::<
                        DeviceAddress,
                        crate::probe::ProbeRejection,
                    >(device);
                assert(responses[i] == earlier[i]);
            } else {
                assert(probe_verdict(responses[responses.len() - 1]) == Ok::<
                    DeviceAddress,
                    crate::probe::ProbeRejection,
                >(device));
            }
        }
        assert forall|device: DeviceAddress|
            (exists|i: int|
                0 <= i < responses.len() && #[trigger] probe_verdict(responses[i]) == Ok::<
                    DeviceAddress,
                    crate::probe::ProbeRejection,
                >(device)) implies found.contains(device) by {
            let i = choose|i: int|
                0 <= i < responses.len() && #[trigger] probe_verdict(responses[i]) == Ok::<
                    DeviceAddress,
                    crate::probe::ProbeRejection,
                >(device);
            if i < earlier.len() {
                assert(earlier[i] == responses[i]);
                assert(accepted_devices(earlier).contains(device));
                let at = choose|k: int|
                    0 <= k < accepted_devices(earlier).len() && accepted_devices(earlier)[k]
                        == device;
                assert(found[at] == device);
            } else {
                assert(found[found.len() - 1] == device);
            }
        }
    }
}

/// The cell that holds the latest published set of devices. It starts with
/// the empty set; a publication replaces the whole set, and nothing of an
/// earlier set is kept.
#[derive(Debug, Clone, PartialEq, Eq)]
pub struct Publisher {
    latest: DeviceSet,
}

impl View for Publisher {
    type V = Seq<DeviceAddress>;

    /// The set that a reader sees now.
    closed spec fn view(&self) -> Seq<DeviceAddress> {
        self.latest@
    }
}

impl Publisher {
    /// A cell that holds the empty set.
    pub fn new() -> (cell: Publisher)
        ensures
            cell@ == Seq::<DeviceAddress>::empty(),
    {
        Publisher { latest: DeviceSet::empty() }
    }

    /// Replaces the current set by `set`.
    pub fn publish(&mut self, set: DeviceSet)
        ensures
            final(self)@ == set@,
    {
        self.latest = set;
    }

    /// The latest published set, as a copy of its own.
    pub fn current(&self) -> (set: DeviceSet)
        ensures
            set@ == self@,
    {
        self.latest.snapshot()
    }
}

/// Where the driver is in its cycle.
#[derive(Debug, Clone, Copy, PartialEq, Eq, Structural)]
pub enum DriverState {
    /// The probes of a sweep are under way.
    Scanning,
    /// The sweep is published and the driver rests until the next one.
    Idle,
}

/// What the outside reports to the driver.
#[derive(Debug, Clone, PartialEq, Eq)]
pub enum DriverEvent {
    /// Every probe of the sweep has ended; the responses, one for each
    /// candidate address.
    ProbesCompleted(Vec<ProbeResponse>),
    /// The rest between two sweeps is over.
    IntervalElapsed,
}

/// What the driver asks the outside to do next.
#[derive(Debug, Clone, PartialEq, Eq)]
pub enum DriverAction {
    /// Probe every candidate at once, wait for all of them, and report the
    /// responses with [`DriverEvent::ProbesCompleted`].
    Scan { candidates: IpRange },
    /// Publish `devices` in place of the current set, rest for `seconds`
    /// seconds, and report [`DriverEvent::IntervalElapsed`].
    PublishThenSleep { devices: DeviceSet, seconds: u64 },
    /// The event does not belong to the state of the cycle: go on waiting.
    Wait,
}

/// Whether an event ends the sweep that is under way: while scanning, the
/// responses of a whole sweep have come, one for each host address of the
/// range. Responses of any other number are partial and end nothing.
pub open spec fn completes_sweep(range: NetworkRange, state: DriverState, event: DriverEvent)
    -> bool {
    &&& state == DriverState::Scanning
    &&& event matches DriverEvent::ProbesCompleted(responses)
    &&& responses@.len() == range.host_addresses().len()
}

/// Whether an event starts the next sweep: the rest is over while the driver
/// is idle.
pub open spec fn starts_sweep(state: DriverState, event: DriverEvent) -> bool {
    state == DriverState::Idle && event is IntervalElapsed
}

/// The state that follows an event. The end of a sweep leads to the rest, the
/// end of the rest to the next sweep; any other event changes nothing.
pub open spec fn next_state(range: NetworkRange, state: DriverState, event: DriverEvent)
    -> DriverState {
    if completes_sweep(range, state, event) {
        DriverState::Idle
    } else if starts_sweep(state, event) {
        DriverState::Scanning
    } else {
        state
    }
}

/// Whether an action is the driver's answer to an event in a state:
/// - a sweep over all host addresses of the range, exactly when the event
///   starts a sweep;
/// - the publication of the devices found among the responses, followed by the
///   fixed rest, exactly when the event ends a sweep;
/// - nothing, for every other event.
pub open spec fn answers(
    action: DriverAction,
    range: NetworkRange,
    state: DriverState,
    event: DriverEvent,
) -> bool {
    match action {
        DriverAction::Scan { candidates } => starts_sweep(state, event) && candidates@
            == range.host_addresses(),
        DriverAction::PublishThenSleep { devices, seconds } => completes_sweep(
            range,
            state,
            event,
        ) && devices@ == accepted_devices(event->ProbesCompleted_0@) && seconds
            == SCAN_INTERVAL_SECS,
        DriverAction::Wait => !starts_sweep(state, event) && !completes_sweep(
            range,
            state,
            event,
        ),
    }
}

/// The driver of the discovery cycle for one range. It runs no probe and
/// keeps no time itself: it says what is to be done, and is told what came of
/// it.
#[derive(Debug, Clone, Copy, PartialEq, Eq)]
pub struct DiscoveryDriver {
    range: NetworkRange,
    state: DriverState,
}

impl DiscoveryDriver {
    /// The range that the driver sweeps.
    pub closed spec fn spec_range(&self) -> NetworkRange {
        self.range
    }

    /// Where the driver is in its cycle.
    pub closed spec fn spec_state(&self) -> DriverState {
        self.state
    }

    /// Starts the cycle with its first sweep.
    pub fn start(range: NetworkRange) -> (started: (DiscoveryDriver, DriverAction))
        ensures
            started.0.spec_range() == range,
            started.0.spec_state() == DriverState::Scanning,
            started.1 matches DriverAction::Scan { candidates } && candidates@
                == range.host_addresses(),
    {
        let candidates = range.hosts();
        (DiscoveryDriver { range, state: DriverState::Scanning }, DriverAction::Scan { candidates })
    }

    /// Where the driver is in its cycle.
    pub fn state(&self) -> (state: DriverState)
        ensures
            state == self.spec_state(),
    {
        self.state
    }

    /// The range that the driver sweeps.
    pub fn range(&self) -> (range: NetworkRange)
        ensures
            range == self.spec_range(),
    {
        self.range
    }

    /// Takes an event and says what is to be done next.
    pub fn step(&mut self, event: DriverEvent) -> (action: DriverAction)
        ensures
            final(self).spec_range() == old(self).spec_range(),
            final(self).spec_state() == next_state(
                old(self).spec_range(),
                old(self).spec_state(),
                event,
            ),
            answers(action, old(self).spec_range(), old(self).spec_state(), event),
    {
        match self.state {
            DriverState::Scanning => match event {
                DriverEvent::ProbesCompleted(responses) => {
                    let expected: u32 = self.range.host_count();
                    if responses.len() as u64 == expected as u64 {
                        let devices = collect_devices(&responses);
                        self.state = DriverState::Idle;
                        DriverAction::PublishThenSleep { devices, seconds: SCAN_INTERVAL_SECS }
                    } else {
                        DriverAction::Wait
                    }
                },
                DriverEvent::IntervalElapsed => DriverAction::Wait,
            },
            DriverState::Idle => match event {
                DriverEvent::ProbesCompleted(_) => DriverAction::Wait,
                DriverEvent::IntervalElapsed => {
                    let candidates = self.range.hosts();
                    self.state = DriverState::Scanning;
                    DriverAction::Scan { candidates }
                },
            },
        }
    }
}

/// The cycle alternates for ever: the only step out of a sweep is to the
/// rest, the only step out of the rest is to the next sweep, and no event ends
/// the cycle.
pub proof fn lemma_driver_alternates(range: NetworkRange, state: DriverState, event: DriverEvent)
    ensures
        next_state(range, state, event) != state ==> (state == DriverState::Scanning
            <==> next_state(range, state, event) == DriverState::Idle),
        next_state(range, state, event) != state <==> completes_sweep(range, state, event)
            || starts_sweep(state, event),
        !(completes_sweep(range, state, event) && starts_sweep(state, event)),
{
}

/// A sweep that finds nothing still publishes: the driver answers the
/// responses of a whole sweep with the empty set, which takes the place of the
/// set before it.
pub proof fn lemma_empty_sweep_publishes(
    range: NetworkRange,
    responses: Vec<ProbeResponse>,
    action: DriverAction,
)
    requires
        responses@.len() == range.host_addresses().len(),
        accepted_devices(responses@).len() == 0,
        answers(action, range, DriverState::Scanning, DriverEvent::ProbesCompleted(responses)),
    ensures
        action matches DriverAction::PublishThenSleep { devices, seconds } && devices@.len() == 0,
        next_state(range, DriverState::Scanning, DriverEvent::ProbesCompleted(responses))
            == DriverState::Idle,
{
}

} // verus!
