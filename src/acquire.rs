//! Device acquisition: pick the robot among the scanned peripherals, then find
//! its four characteristics in the discovered services.
//!
//! The handshake is a state machine. The caller performs each returned step
//! against the BLE stack (scan, connect, discover) and reports what happened as
//! the next event; nothing here is retried.

use vstd::prelude::*;
use crate::control::Target;

verus! {

/// Advertised name of the robot, matched exactly.
pub const DEVICE_NAME: &'static str = "Petobot™";

/// The service the robot advertises and that holds its characteristics.
pub const SERVICE_UUID: &'static str = "08daa714-ccf1-42a8-8a88-535652d04bac";

/// Left-motor power characteristic.
pub const LEFT_UUID: &'static str = "1EF71EF7-1EF7-1EF7-1EF7-1EF71EF71EF7";

/// Right-motor power characteristic.
pub const RIGHT_UUID: &'static str = "1E551EF7-1E55-1E55-1E55-1E551E551EF7";

/// Go characteristic.
pub const GO_UUID: &'static str = "FA57FA57-FA57-FA57-FA57-FA57FA57FA57";

/// Stop characteristic.
pub const STOP_UUID: &'static str = "1E55FA57-1E55-FA57-1E55-FA571E55FA57";

/// What uuid's parser makes of a text: its 128-bit value, or `None` where the
/// text is not a UUID.
pub uninterp spec fn uuid_value(s: Seq<char>) -> Option<u128>;

/// Relies on `uuid::Uuid::parse_str` (with `Uuid::as_u128`): its result depends
/// on the text alone.
#[verifier::external_body]
fn parse_uuid(s: &str) -> (r: Option<u128>)
    ensures
        r == uuid_value(s@),
{
    match uuid::Uuid::parse_str(s) {
        Ok(u) => Some(u.as_u128()),
        Err(_) => None,
    }
}

/// The identifiers that a robot is found and driven by.
#[derive(Debug, Clone, Copy, PartialEq, Eq, Structural)]
pub struct Ids {
    pub service: u128,
    pub left: u128,
    pub right: u128,
    pub go: u128,
    pub stop: u128,
}

impl Ids {
    pub open spec fn spec_parse(
        service: Seq<char>,
        left: Seq<char>,
        right: Seq<char>,
        go: Seq<char>,
        stop: Seq<char>,
    ) -> Option<Ids> {
        match (uuid_value(service), uuid_value(left), uuid_value(right), uuid_value(go), uuid_value(stop)) {
            (Some(service), Some(left), Some(right), Some(go), Some(stop)) =>
                Some(Ids { service, left, right, go, stop }),
            _ => None,
        }
    }

    /// Parses the five identifiers; `None` where any of them is not a UUID.
    pub fn parse(service: &str, left: &str, right: &str, go: &str, stop: &str) -> (r: Option<Ids>)
        ensures
            r == Ids::spec_parse(service@, left@, right@, go@, stop@),
    {
        match (parse_uuid(service), parse_uuid(left), parse_uuid(right), parse_uuid(go), parse_uuid(stop)) {
            (Some(service), Some(left), Some(right), Some(go), Some(stop)) =>
                Some(Ids { service, left, right, go, stop }),
            _ => None,
        }
    }

    /// The identifiers of the robot's firmware.
    pub fn petobot() -> (r: Option<Ids>)
        ensures
            r == Ids::spec_parse(SERVICE_UUID@, LEFT_UUID@, RIGHT_UUID@, GO_UUID@, STOP_UUID@),
    {
        Ids::parse(SERVICE_UUID, LEFT_UUID, RIGHT_UUID, GO_UUID, STOP_UUID)
    }
}

/// Why acquisition failed. Every failure is fatal.
#[derive(Debug, Clone, Copy, PartialEq, Eq, Structural)]
pub enum AcquireError {
    /// No BLE adapter is present.
    NoAdapter,
    /// No scanned peripheral advertises the target name.
    NoDevice,
    /// The connected device has no service with the target UUID.
    NoService,
    NoLeft,
    NoRight,
    NoGo,
    NoStop,
    /// A call into the BLE stack (scan, connect, discovery) failed.
    Transport,
}

/// `i` is the first position of `x` in `s`.
pub open spec fn is_first(s: Seq<u128>, x: u128, i: int) -> bool {
    &&& 0 <= i < s.len()
    &&& s[i] == x
    &&& forall|j: int| 0 <= j < i ==> s[j] != x
}

/// The first position of `x` in `s`, if any.
pub open spec fn first_index(s: Seq<u128>, x: u128) -> Option<int> {
    if s.contains(x) {
        Some(choose|i: int| is_first(s, x, i))
    } else {
        None
    }
}

/// A position that is first is the one `first_index` picks.
pub proof fn lemma_first_index(s: Seq<u128>, x: u128, i: int)
    requires
        is_first(s, x, i),
    ensures
        first_index(s, x) == Some(i),
{
    assert(s.contains(x));
    let k = choose|k: int| is_first(s, x, k);
    assert(is_first(s, x, k));
    if k < i {
        assert(s[k] != x);
    } else if i < k {
        assert(s[i] != x);
    }
}

/// Finds the first position of `x` in `s`.
pub fn find_first(s: &Vec<u128>, x: u128) -> (r: Option<usize>)
    ensures
        match r {
            Some(i) => first_index(s@, x) == Some(i as int),
            None => first_index(s@, x) is None,
        },
{
    let mut i: usize = 0;
    while i < s.len()
        invariant
            i <= s@.len(),
            forall|j: int| 0 <= j < i ==> s@[j] != x,
        decreases s.len() - i,
    {
        if s[i] == x {
            proof {
                lemma_first_index(s@, x, i as int);
            }
            return Some(i);
        }
        i += 1;
    }
    None
}

/// A discovered GATT service: its UUID and those of its characteristics, in
/// the order the BLE stack listed them.
#[derive(Debug)]
pub struct ServiceInfo {
    pub uuid: u128,
    pub characteristics: Vec<u128>,
}

pub open spec fn service_uuids(services: Seq<ServiceInfo>) -> Seq<u128> {
    services.map_values(|sv: ServiceInfo| sv.uuid)
}

/// The robot's four characteristics, resolved: the position of its service in
/// the discovered services, and the position of each characteristic within
/// that service.
#[derive(Debug, Clone, Copy, PartialEq, Eq, Structural)]
pub struct Characterizer {
    pub service: usize,
    pub left: usize,
    pub right: usize,
    pub go: usize,
    pub stop: usize,
}

impl Characterizer {
    /// The binding of `ids` in `services`: the first service with the target
    /// UUID, and in it the first characteristic with each target UUID; the first
    /// missing piece, in the order service, left, right, go, stop, is the error.
    pub open spec fn spec_resolve(services: Seq<ServiceInfo>, ids: Ids) -> Result<
        Characterizer,
        AcquireError,
    > {
        match first_index(service_uuids(services), ids.service) {
            None => Err(AcquireError::NoService),
            Some(si) => {
                let cs = services[si].characteristics@;
                match first_index(cs, ids.left) {
                    None => Err(AcquireError::NoLeft),
                    Some(l) => match first_index(cs, ids.right) {
                        None => Err(AcquireError::NoRight),
                        Some(r) => match first_index(cs, ids.go) {
                            None => Err(AcquireError::NoGo),
                            Some(g) => match first_index(cs, ids.stop) {
                                None => Err(AcquireError::NoStop),
                                Some(st) => Ok(
                                    Characterizer {
                                        service: si as usize,
                                        left: l as usize,
                                        right: r as usize,
                                        go: g as usize,
                                        stop: st as usize,
                                    },
                                ),
                            },
                        },
                    },
                }
            },
        }
    }

    /// The position, within the bound service, of the characteristic that a
    /// write to `t` goes to.
    pub fn characteristic(&self, t: Target) -> (r: usize)
        ensures
            r == match t {
                Target::Left => self.left,
                Target::Right => self.right,
                Target::Go => self.go,
                Target::Stop => self.stop,
            },
    {
        match t {
            Target::Left => self.left,
            Target::Right => self.right,
            Target::Go => self.go,
            Target::Stop => self.stop,
        }
    }

    /// Binds the robot's four characteristics in the discovered services.
    pub fn resolve(services: &Vec<ServiceInfo>, ids: &Ids) -> (r: Result<Characterizer, AcquireError>)
        ensures
            r == Characterizer::spec_resolve(services@, *ids),
    {
        let mut i: usize = 0;
        let ghost su = service_uuids(services@);
        while i < services.len()
            invariant
                i <= services@.len(),
                su == service_uuids(services@),
                forall|j: int| 0 <= j < i ==> su[j] != ids.service,
            ensures
                i <= services@.len(),
                forall|j: int| 0 <= j < i ==> su[j] != ids.service,
                i < services@.len() ==> su[i as int] == ids.service,
            decreases services.len() - i,
        {
            if services[i].uuid == ids.service {
                break;
            }
            i += 1;
        }
        if i == services.len() {
            assert(!su.contains(ids.service));
            return Err(AcquireError::NoService);
        }
        proof {
            lemma_first_index(su, ids.service, i as int);
        }
        let cs = &services[i].characteristics;
        let left = match find_first(cs, ids.left) {
            None => return Err(AcquireError::NoLeft),
            Some(l) => l,
        };
        let right = match find_first(cs, ids.right) {
            None => return Err(AcquireError::NoRight),
            Some(r) => r,
        };
        let go = match find_first(cs, ids.go) {
            None => return Err(AcquireError::NoGo),
            Some(g) => g,
        };
        let stop = match find_first(cs, ids.stop) {
            None => return Err(AcquireError::NoStop),
            Some(st) => st,
        };
        Ok(Characterizer { service: i, left, right, go, stop })
    }
}

/// The peripheral's advertised name is exactly `target`.
pub open spec fn name_matches(name: Option<String>, target: Seq<char>) -> bool {
    name matches Some(n) && n@ == target
}

/// `i` is the first position whose name is exactly `target`.
pub open spec fn is_first_named(names: Seq<Option<String>>, target: Seq<char>, i: int) -> bool {
    &&& 0 <= i < names.len()
    &&& name_matches(names[i], target)
    &&& forall|j: int| 0 <= j < i ==> !name_matches(#[trigger] names[j], target)
}

/// Selects the first scanned peripheral whose advertised name is exactly
/// `target`. `names` holds one entry per peripheral, `None` where its
/// properties or its name could not be read.
pub fn select_first_named(names: &Vec<Option<String>>, target: &String) -> (r: Option<usize>)
    ensures
        match r {
            Some(i) => is_first_named(names@, target@, i as int),
            None => forall|j: int| 0 <= j < names@.len() ==> !name_matches(#[trigger] names@[j], target@),
        },
{
    let mut i: usize = 0;
    while i < names.len()
        invariant
            i <= names@.len(),
            forall|j: int| 0 <= j < i ==> !name_matches(#[trigger] names@[j], target@),
        decreases names.len() - i,
    {
        match &names[i] {
            Some(n) => {
                if n.eq(target) {
                    return Some(i);
                }
            },
            None => {},
        }
        i += 1;
    }
    None
}

/// The first position whose name is exactly `target`, if any.
pub open spec fn first_named(names: Seq<Option<String>>, target: Seq<char>) -> Option<int> {
    if exists|i: int| is_first_named(names, target, i) {
        Some(choose|i: int| is_first_named(names, target, i))
    } else {
        None
    }
}

/// A position that is first is the one `first_named` picks.
pub proof fn lemma_first_named(names: Seq<Option<String>>, target: Seq<char>, i: int)
    requires
        is_first_named(names, target, i),
    ensures
        first_named(names, target) == Some(i),
{
    let k = choose|k: int| is_first_named(names, target, k);
    assert(is_first_named(names, target, k));
    if k < i {
        assert(!name_matches(names[k], target));
    } else if i < k {
        assert(!name_matches(names[i], target));
    }
}

proof fn lemma_none_named(names: Seq<Option<String>>, target: Seq<char>)
    requires
        forall|j: int| 0 <= j < names.len() ==> !name_matches(#[trigger] names[j], target),
    ensures
        first_named(names, target) is None,
{
    assert(!exists|i: int| is_first_named(names, target, i)) by {
        if exists|i: int| is_first_named(names, target, i) {
            let i = choose|i: int| is_first_named(names, target, i);
            assert(!name_matches(names[i], target));
        }
    }
}

/// Where the handshake stands.
#[derive(Debug, Clone, Copy, PartialEq, Eq, Structural)]
pub enum Phase {
    /// Waiting for the list of adapters.
    Start,
    /// A scan was asked for; waiting for the peripherals seen in the settle window.
    Scanning,
    /// Waiting for the connection to the selected peripheral.
    Connecting,
    /// Waiting for the connected peripheral's services.
    Discovering,
    /// The four characteristics are resolved.
    Bound,
    /// Acquisition failed; nothing more happens.
    Failed,
}

/// What the caller observed after performing the last step.
#[derive(Debug)]
pub enum Event {
    /// How many BLE adapters are present.
    Adapters(usize),
    /// The advertised name of each peripheral seen in the settle window, in the
    /// order the stack listed them; `None` where it could not be read.
    Peripherals(Vec<Option<String>>),
    /// The selected peripheral is connected.
    Connected,
    /// The services discovered on the connected peripheral.
    Services(Vec<ServiceInfo>),
    /// The BLE call that the last step asked for failed.
    TransportFailed,
}

/// What the caller does next.
#[derive(Debug, Clone, Copy, PartialEq, Eq, Structural)]
pub enum Step {
    /// On the first adapter, start a scan filtered by the service UUID, wait the
    /// settle window, then report the peripherals' names.
    StartScan,
    /// Connect to the peripheral at this position of the reported list.
    Connect(usize),
    /// Discover the connected peripheral's services and report them.
    DiscoverServices,
    /// Done: drive the robot through this binding.
    Bound(Characterizer),
    /// Abort startup with this error.
    Fail(AcquireError),
    /// The event does not belong to this phase: nothing to do.
    Ignore,
}

/// The acquisition handshake for one robot, identified by its service and
/// characteristic UUIDs and by its advertised name.
#[derive(Debug)]
pub struct Acquisition {
    pub phase: Phase,
    pub ids: Ids,
    pub name: String,
}

impl Acquisition {
    /// The phase entered and the step asked for on one event.
    pub open spec fn spec_step(self, ev: Event) -> (Phase, Step) {
        match ev {
            Event::Adapters(n) if self.phase == Phase::Start => if n == 0 {
                (Phase::Failed, Step::Fail(AcquireError::NoAdapter))
            } else {
                (Phase::Scanning, Step::StartScan)
            },
            Event::Peripherals(names) if self.phase == Phase::Scanning => match first_named(
                names@,
                self.name@,
            ) {
                Some(i) => (Phase::Connecting, Step::Connect(i as usize)),
                None => (Phase::Failed, Step::Fail(AcquireError::NoDevice)),
            },
            Event::Connected if self.phase == Phase::Connecting => (
                Phase::Discovering,
                Step::DiscoverServices,
            ),
            Event::Services(services) if self.phase == Phase::Discovering => match Characterizer::spec_resolve(
                services@,
                self.ids,
            ) {
                Ok(c) => (Phase::Bound, Step::Bound(c)),
                Err(e) => (Phase::Failed, Step::Fail(e)),
            },
            Event::TransportFailed if self.is_pending() => (
                Phase::Failed,
                Step::Fail(AcquireError::Transport),
            ),
            _ => (self.phase, Step::Ignore),
        }
    }

    /// The handshake is still under way.
    pub open spec fn is_pending(self) -> bool {
        self.phase != Phase::Bound && self.phase != Phase::Failed
    }

    /// A handshake that has not started.
    pub fn new(ids: Ids, name: String) -> (r: Acquisition)
        ensures
            r.phase == Phase::Start,
            r.ids == ids,
            r.name == name,
    {
        Acquisition { phase: Phase::Start, ids, name }
    }

    /// Takes one event and says what to do next.
    pub fn on_event(&mut self, ev: Event) -> (s: Step)
        ensures
            final(self).phase == old(self).spec_step(ev).0,
            s == old(self).spec_step(ev).1,
            final(self).ids == old(self).ids,
            final(self).name == old(self).name,
    {
        let (phase, step) = match ev {
            Event::Adapters(n) if self.phase == Phase::Start => if n == 0 {
                (Phase::Failed, Step::Fail(AcquireError::NoAdapter))
            } else {
                (Phase::Scanning, Step::StartScan)
            },
            Event::Peripherals(names) if self.phase == Phase::Scanning => {
                match select_first_named(&names, &self.name) {
                    Some(i) => {
                        proof {
                            lemma_first_named(names@, self.name@, i as int);
                        }
                        (Phase::Connecting, Step::Connect(i))
                    },
                    None => {
                        proof {
                            lemma_none_named(names@, self.name@);
                        }
                        (Phase::Failed, Step::Fail(AcquireError::NoDevice))
                    },
                }
            },
            Event::Connected if self.phase == Phase::Connecting => (
                Phase::Discovering,
                Step::DiscoverServices,
            ),
            Event::Services(services) if self.phase == Phase::Discovering => {
                match Characterizer::resolve(&services, &self.ids) {
                    Ok(c) => (Phase::Bound, Step::Bound(c)),
                    Err(e) => (Phase::Failed, Step::Fail(e)),
                }
            },
            Event::TransportFailed if self.phase != Phase::Bound && self.phase != Phase::Failed => (
                Phase::Failed,
                Step::Fail(AcquireError::Transport),
            ),
            _ => (self.phase, Step::Ignore),
        };
        self.phase = phase;
        step
    }
}

/// A finished handshake stays finished: once bound or failed, no event leads
/// to a scan, a connection, a discovery or a binding.
pub proof fn lemma_finished_is_final(a: Acquisition, ev: Event)
    requires
        !a.is_pending(),
    ensures
        a.spec_step(ev) == (a.phase, Step::Ignore),
{
}

/// When no scanned peripheral advertises the target name, the handshake fails
/// with `NoDevice` and asks for no connection.
pub proof fn lemma_no_match_fails(a: Acquisition, names: Vec<Option<String>>)
    requires
        a.phase == Phase::Scanning,
        forall|j: int| 0 <= j < names@.len() ==> !name_matches(#[trigger] names@[j], a.name@),
    ensures
        a.spec_step(Event::Peripherals(names)) == (Phase::Failed, Step::Fail(AcquireError::NoDevice)),
{
    lemma_none_named(names@, a.name@);
}

} // verus!
