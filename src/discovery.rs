//! Discovery of devices: the decisions of a browse session that is bounded
//! in time, fed with the events that the network hands out.
use vstd::prelude::*;

verus! {

/// A device found on the network.
#[derive(Debug)]
pub struct HomewizardDevice {
    /// The advertised service name, unique per device.
    pub fullname: String,
    /// The device's IPv4 addresses, each as the big-endian number of its
    /// four octets.
    pub ip_addresses: Vec<u32>,
}

/// A discovered device as a value of mathematics.
pub struct DeviceModel {
    pub fullname: Seq<char>,
    pub ip_addresses: Seq<u32>,
}

impl View for HomewizardDevice {
    type V = DeviceModel;

    open spec fn view(&self) -> DeviceModel {
        DeviceModel { fullname: self.fullname@, ip_addresses: self.ip_addresses@ }
    }
}

impl HomewizardDevice {
    /// The address that requests to the device go to: its first one.
    pub fn api_address(&self) -> (r: Option<u32>)
        ensures
            self.ip_addresses@.len() == 0 ==> r is None,
            self.ip_addresses@.len() > 0 ==> r == Some(self.ip_addresses@[0]),
    {
        if self.ip_addresses.len() == 0 {
            None
        } else {
            Some(self.ip_addresses[0])
        }
    }
}

pub open spec fn devices_model(v: Seq<HomewizardDevice>) -> Seq<DeviceModel> {
    v.map_values(|d: HomewizardDevice| d@)
}

/// No two devices share a fullname.
pub open spec fn unique_fullnames(ds: Seq<DeviceModel>) -> bool {
    forall|i: int, j: int|
        0 <= i < ds.len() && 0 <= j < ds.len() && i != j ==> #[trigger] ds[i].fullname
            != #[trigger] ds[j].fullname
}

pub open spec fn has_fullname(ds: Seq<DeviceModel>, name: Seq<char>) -> bool {
    exists|i: int| 0 <= i < ds.len() && #[trigger] ds[i].fullname == name
}

/// The devices after `d` was resolved: it takes the place of the device of
/// the same fullname, or joins the end.
pub open spec fn with_resolved(ds: Seq<DeviceModel>, d: DeviceModel) -> Seq<DeviceModel> {
    if has_fullname(ds, d.fullname) {
        ds.update(choose|i: int| 0 <= i < ds.len() && #[trigger] ds[i].fullname == d.fullname, d)
    } else {
        ds.push(d)
    }
}

proof fn lemma_with_resolved(ds: Seq<DeviceModel>, d: DeviceModel)
    requires
        unique_fullnames(ds),
    ensures
        unique_fullnames(with_resolved(ds, d)),
        exists|i: int|
            0 <= i < with_resolved(ds, d).len() && #[trigger] with_resolved(ds, d)[i] == d,
        has_fullname(ds, d.fullname) ==> with_resolved(ds, d).len() == ds.len(),
        !has_fullname(ds, d.fullname) ==> with_resolved(ds, d).len() == ds.len() + 1,
{
    let ns = with_resolved(ds, d);
    if has_fullname(ds, d.fullname) {
        let i = choose|i: int| 0 <= i < ds.len() && #[trigger] ds[i].fullname == d.fullname;
        assert(ns[i] == d);
        assert forall|a: int, b: int|
            0 <= a < ns.len() && 0 <= b < ns.len() && a != b implies #[trigger] ns[a].fullname
            != #[trigger] ns[b].fullname by {
            if a != i && b != i {
                assert(ns[a] == ds[a] && ns[b] == ds[b]);
            } else if a == i {
                assert(ns[b] == ds[b]);
            } else {
                assert(ns[a] == ds[a]);
            }
        }
    } else {
        assert(ns[ds.len() as int] == d);
        assert forall|a: int, b: int|
            0 <= a < ns.len() && 0 <= b < ns.len() && a != b implies #[trigger] ns[a].fullname
            != #[trigger] ns[b].fullname by {
            if a < ds.len() && b < ds.len() {
                assert(ns[a] == ds[a] && ns[b] == ds[b]);
            } else if a < ds.len() {
                assert(ns[a] == ds[a]);
            } else {
                assert(ns[b] == ds[b]);
            }
        }
    }
}

/// Two resolutions of one fullname leave exactly one device of that name,
/// and it carries the addresses of the later one; the number of devices is
/// that after the first.
pub proof fn lemma_repeated_resolution_keeps_later(
    ds: Seq<DeviceModel>,
    first: DeviceModel,
    later: DeviceModel,
)
    requires
        unique_fullnames(ds),
        first.fullname == later.fullname,
    ensures
        ({
            let once = with_resolved(ds, first);
            let twice = with_resolved(once, later);
            &&& twice.len() == once.len()
            &&& exists|i: int|
                0 <= i < twice.len() && #[trigger] twice[i] == later && forall|j: int|
                    0 <= j < twice.len() && #[trigger] twice[j].fullname == later.fullname ==> j
                        == i
        }),
{
    let once = with_resolved(ds, first);
    lemma_with_resolved(ds, first);
    let k = choose|k: int| 0 <= k < once.len() && #[trigger] once[k] == first;
    assert(has_fullname(once, later.fullname)) by {
        assert(once[k].fullname == later.fullname);
    }
    lemma_with_resolved(once, later);
    let twice = with_resolved(once, later);
    let i = choose|i: int| 0 <= i < twice.len() && #[trigger] twice[i] == later;
    assert forall|j: int|
        0 <= j < twice.len() && #[trigger] twice[j].fullname == later.fullname implies j == i by {
        if j != i {
            assert(twice[j].fullname != twice[i].fullname);
        }
    }
}

/// The session never waits past its budget: it finishes once the budget is
/// spent, and a wait that it asks for ends by the budget's end.
pub proof fn lemma_wait_within_budget(timeout_seconds: u64, elapsed_millis: u64)
    ensures
        action_after(timeout_seconds, elapsed_millis) == DiscoveryAction::Finish <==> elapsed_millis
            > budget_millis(timeout_seconds),
        action_after(timeout_seconds, elapsed_millis) matches DiscoveryAction::Wait { millis }
            ==> elapsed_millis + millis <= budget_millis(timeout_seconds),
{
}

/// What the network reported to a browse session.
#[derive(Debug)]
pub enum DiscoveryEvent {
    /// A device was resolved to its addresses.
    Resolved { fullname: String, ip_addresses: Vec<u32> },
    /// Anything else that the session reports.
    Other,
    /// No event came in the time that was waited.
    Silence,
    /// The session ended.
    Closed,
}

/// What a browse session does next.
#[derive(Clone, Copy, Debug, PartialEq, Eq, Structural)]
pub enum DiscoveryAction {
    /// Wait at most this many milliseconds for the next event.
    Wait { millis: u64 },
    /// Stop browsing.
    Finish,
}

/// The time budget in milliseconds.
pub open spec fn budget_millis(timeout_seconds: u64) -> int {
    timeout_seconds * 1000
}

/// What to do when `elapsed_millis` of the budget have gone: wait for the
/// rest of it, as far as a `u64` holds, or stop once it is spent.
pub open spec fn action_after(timeout_seconds: u64, elapsed_millis: u64) -> DiscoveryAction {
    if elapsed_millis > budget_millis(timeout_seconds) {
        DiscoveryAction::Finish
    } else {
        let rest = budget_millis(timeout_seconds) - elapsed_millis;
        DiscoveryAction::Wait { millis: if rest > u64::MAX { u64::MAX } else { rest as u64 } }
    }
}

/// The state of one browse session.
pub struct Discovery {
    timeout_seconds: u64,
    devices: Vec<HomewizardDevice>,
}

impl Discovery {
    pub closed spec fn spec_timeout_seconds(&self) -> u64 {
        self.timeout_seconds
    }

    /// The devices found so far, in the order in which they first appeared.
    pub closed spec fn found(&self) -> Seq<DeviceModel> {
        devices_model(self.devices@)
    }

    pub closed spec fn wf(&self) -> bool {
        unique_fullnames(self.found())
    }

    /// A session that may last `timeout_seconds`, with nothing found yet.
    pub fn new(timeout_seconds: u64) -> (r: Discovery)
        ensures
            r.wf(),
            r.found() == Seq::<DeviceModel>::empty(),
            r.spec_timeout_seconds() == timeout_seconds,
    {
        let r = Discovery { timeout_seconds, devices: Vec::new() };
        assert(r.found() =~= Seq::<DeviceModel>::empty());
        r
    }

    fn wait_after(&self, elapsed_millis: u64) -> (r: DiscoveryAction)
        ensures
            r == action_after(self.timeout_seconds, elapsed_millis),
    {
        let budget: u128 = self.timeout_seconds as u128 * 1000;
        if elapsed_millis as u128 > budget {
            DiscoveryAction::Finish
        } else {
            let rest: u128 = budget - elapsed_millis as u128;
            let millis: u64 = if rest > u64::MAX as u128 {
                u64::MAX
            } else {
                rest as u64
            };
            DiscoveryAction::Wait { millis }
        }
    }

    /// What to do first: wait for the whole budget.
    pub fn first_action(&self) -> (r: DiscoveryAction)
        ensures
            r == action_after(self.spec_timeout_seconds(), 0),
    {
        self.wait_after(0)
    }

    /// Takes the device that was resolved in: it replaces the one of the
    /// same fullname, or is added at the end.
    fn record(&mut self, device: HomewizardDevice)
        requires
            old(self).wf(),
        ensures
            final(self).wf(),
            final(self).found() == with_resolved(old(self).found(), device@),
            final(self).timeout_seconds == old(self).timeout_seconds,
    {
        let ghost ds = self.found();
        let mut i: usize = 0;
        while i < self.devices.len()
            invariant
                i <= self.devices@.len(),
                ds == devices_model(self.devices@),
                ds == old(self).found(),
                unique_fullnames(ds),
                self.timeout_seconds == old(self).timeout_seconds,
                forall|j: int| 0 <= j < i ==> (#[trigger] ds[j]).fullname != device.fullname@,
            decreases self.devices@.len() - i,
        {
            if self.devices[i].fullname == device.fullname {
                proof {
                    assert(ds[i as int].fullname == device.fullname@);
                    assert(has_fullname(ds, device.fullname@));
                    let k = choose|k: int|
                        0 <= k < ds.len() && #[trigger] ds[k].fullname == device.fullname@;
                    assert(k == i);
                }
                self.devices.set(i, device);
                assert(self.found() =~= with_resolved(ds, device@));
                proof {
                    lemma_with_resolved(ds, device@);
                }
                return;
            }
            i = i + 1;
        }
        assert(!has_fullname(ds, device.fullname@));
        self.devices.push(device);
        assert(self.found() =~= with_resolved(ds, device@));
        proof {
            lemma_with_resolved(ds, device@);
        }
    }

    /// Handles `event`, which came `elapsed_millis` after the session began,
    /// and says what to do next. A resolved device is recorded; the session
    /// finishes when it is closed or its budget is spent, and else waits for
    /// the rest of the budget.
    pub fn on_event(&mut self, event: DiscoveryEvent, elapsed_millis: u64) -> (r: DiscoveryAction)
        requires
            old(self).wf(),
        ensures
            final(self).wf(),
            final(self).spec_timeout_seconds() == old(self).spec_timeout_seconds(),
            match event {
                DiscoveryEvent::Resolved { fullname, ip_addresses } => final(self).found()
                    == with_resolved(
                    old(self).found(),
                    DeviceModel { fullname: fullname@, ip_addresses: ip_addresses@ },
                ),
                _ => final(self).found() == old(self).found(),
            },
            match event {
                DiscoveryEvent::Closed => r == DiscoveryAction::Finish,
                _ => r == action_after(old(self).spec_timeout_seconds(), elapsed_millis),
            },
    {
        match event {
            DiscoveryEvent::Resolved { fullname, ip_addresses } => {
                self.record(HomewizardDevice { fullname, ip_addresses });
                self.wait_after(elapsed_millis)
            },
            DiscoveryEvent::Closed => DiscoveryAction::Finish,
            _ => self.wait_after(elapsed_millis),
        }
    }

    /// The devices found, each once, in the order in which they first appeared.
    pub fn into_devices(self) -> (r: Vec<HomewizardDevice>)
        requires
            self.wf(),
        ensures
            devices_model(r@) == self.found(),
            unique_fullnames(devices_model(r@)),
    {
        self.devices
    }
}

} // verus!
