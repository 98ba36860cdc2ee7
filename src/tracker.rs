//! Discovered radio peers: each hardware address is kept once, with the
//! name and service flag of its first sighting, and classified as a
//! scooter or not.
use vstd::prelude::*;

verus! {

/// A six-byte hardware address.
pub type Address = [u8; 6];

/// The vendor's service UUID (`0000fe95-0000-1000-8000-00805f9b34fb`).
pub const VENDOR_SERVICE_UUID: u128 = 0x0000fe95_0000_1000_8000_00805f9b34fb;

/// The name recorded for a peer that advertises none.
pub const UNKNOWN_NAME: &'static str = "(peripheral name unknown)";

/// Scooter names start with this.
pub open spec fn scooter_name_prefix() -> Seq<char> {
    seq!['M', 'I', 'S', 'c', 'o', 'o', 't', 'e', 'r']
}

/// What the tracker knows of a peer.
pub struct DeviceModel {
    pub addr: Seq<u8>,
    pub name: Option<Seq<char>>,
    pub has_xiaomi_service: bool,
}

/// A peer as first sighted.
#[derive(Debug)]
pub struct TrackedDevice {
    pub addr: Address,
    pub name: Option<String>,
    pub has_xiaomi_service: bool,
}

pub open spec fn name_view(n: Option<String>) -> Option<Seq<char>> {
    match n {
        Some(s) => Some(s@),
        None => None,
    }
}

impl View for TrackedDevice {
    type V = DeviceModel;

    open spec fn view(&self) -> DeviceModel {
        DeviceModel { addr: self.addr@, name: name_view(self.name), has_xiaomi_service: self.has_xiaomi_service }
    }
}

pub open spec fn starts_with(s: Seq<char>, prefix: Seq<char>) -> bool {
    prefix.len() <= s.len() && s.subrange(0, prefix.len() as int) == prefix
}

/// A peer is a scooter candidate when it advertises the vendor service or
/// its name starts with the scooter prefix.
pub open spec fn is_scooter_model(d: DeviceModel) -> bool {
    d.has_xiaomi_service || (d.name is Some && starts_with(d.name.unwrap(), scooter_name_prefix()))
}

/// Whether `s` starts with the scooter name prefix.
fn has_scooter_prefix(s: &str) -> (r: bool)
    ensures
        r == starts_with(s@, scooter_name_prefix()),
{
    let prefix: [char; 9] = ['M', 'I', 'S', 'c', 'o', 'o', 't', 'e', 'r'];
    assert(prefix@ =~= scooter_name_prefix());
    let n = s.unicode_len();
    if n < 9 {
        return false;
    }
    let mut i: usize = 0;
    while i < 9
        invariant
            i <= 9 <= n,
            n == s@.len(),
            prefix@ == scooter_name_prefix(),
            s@.subrange(0, i as int) == prefix@.subrange(0, i as int),
        decreases 9 - i,
    {
        if s.get_char(i) != prefix[i] {
            assert(s@.subrange(0, 9)[i as int] != scooter_name_prefix()[i as int]);
            return false;
        }
        i = i + 1;
        assert(s@.subrange(0, i as int) =~= prefix@.subrange(0, i as int));
    }
    assert(prefix@.subrange(0, 9) =~= prefix@);
    true
}

impl Clone for TrackedDevice {
    fn clone(&self) -> (r: Self)
        ensures
            r@ == self@,
    {
        let name = match &self.name {
            Some(n) => Some(n.clone()),
            None => None,
        };
        TrackedDevice { addr: self.addr, name, has_xiaomi_service: self.has_xiaomi_service }
    }
}

/// Equality is by address only: two sightings of one address are one peer.
impl PartialEq for TrackedDevice {
    fn eq(&self, other: &Self) -> (r: bool) {
        same_address(&self.addr, &other.addr)
    }
}

impl vstd::std_specs::cmp::PartialEqSpecImpl for TrackedDevice {
    open spec fn obeys_eq_spec() -> bool {
        true
    }

    open spec fn eq_spec(&self, other: &TrackedDevice) -> bool {
        self.addr@ == other.addr@
    }
}

/// Whether two addresses are the same.
pub fn same_address(a: &Address, b: &Address) -> (r: bool)
    ensures
        r == (a@ == b@),
{
    let mut i: usize = 0;
    while i < 6
        invariant
            i <= 6,
            forall|j: int| 0 <= j < i ==> a@[j] == b@[j],
        decreases 6 - i,
    {
        if a[i] != b[i] {
            return false;
        }
        i = i + 1;
    }
    assert(a@ =~= b@);
    true
}

impl TrackedDevice {
    /// Whether this peer may be a scooter.
    pub fn is_scooter(&self) -> (r: bool)
        ensures
            r == is_scooter_model(self@),
    {
        if self.has_xiaomi_service {
            return true;
        }
        match &self.name {
            Some(name) => has_scooter_prefix(name.as_str()),
            None => false,
        }
    }
}

/// Events that scanning reports to callers.
#[derive(Debug)]
pub enum ScannerEvent {
    DiscoveredScooter(TrackedDevice),
}

/// Whether a sequence of peers holds a peer with address `a`.
pub open spec fn knows(v: Seq<DeviceModel>, a: Seq<u8>) -> bool {
    exists|i: int| 0 <= i < v.len() && v[i].addr == a
}

/// No address is held twice.
pub open spec fn unique_addresses(v: Seq<DeviceModel>) -> bool {
    forall|i: int, j: int| 0 <= i < j < v.len() ==> v[i].addr != v[j].addr
}

/// The peer that one advertisement describes: an absent name is recorded
/// as the unknown-name text, and the service flag is set when the vendor
/// service is among the advertised services or the service-data keys.
pub open spec fn sighted(
    addr: Seq<u8>,
    name: Option<Seq<char>>,
    services: Seq<u128>,
    data_keys: Seq<u128>,
) -> DeviceModel {
    DeviceModel {
        addr,
        name: Some(
            match name {
                Some(n) => n,
                None => UNKNOWN_NAME@,
            },
        ),
        has_xiaomi_service: services.contains(VENDOR_SERVICE_UUID) || data_keys.contains(
            VENDOR_SERVICE_UUID,
        ),
    }
}

/// Tracking a sighting: a known address changes nothing and yields
/// nothing; a new one is appended and yielded.
pub open spec fn track(v: Seq<DeviceModel>, s: DeviceModel) -> (Seq<DeviceModel>, Option<DeviceModel>) {
    if knows(v, s.addr) {
        (v, None)
    } else {
        (v.push(s), Some(s))
    }
}

/// The discovery event that a sighting gives: a newly tracked scooter
/// candidate, or nothing.
pub open spec fn event_of(v: Seq<DeviceModel>, s: DeviceModel) -> Option<DeviceModel> {
    if !knows(v, s.addr) && is_scooter_model(s) {
        Some(s)
    } else {
        None
    }
}

/// The registry of peers seen so far.
pub struct DeviceRegistry {
    devices: Vec<TrackedDevice>,
}

pub open spec fn models(v: Seq<TrackedDevice>) -> Seq<DeviceModel> {
    v.map_values(|d: TrackedDevice| d@)
}

impl View for DeviceRegistry {
    type V = Seq<DeviceModel>;

    closed spec fn view(&self) -> Seq<DeviceModel> {
        models(self.devices@)
    }
}

fn vec_contains(v: &Vec<u128>, x: u128) -> (r: bool)
    ensures
        r == v@.contains(x),
{
    let mut i: usize = 0;
    while i < v.len()
        invariant
            i <= v@.len(),
            forall|j: int| 0 <= j < i ==> v@[j] != x,
        decreases v@.len() - i,
    {
        if v[i] == x {
            return true;
        }
        i = i + 1;
    }
    false
}

impl DeviceRegistry {
    /// Holds no two peers with one address.
    pub open spec fn wf(&self) -> bool {
        unique_addresses(self@)
    }

    pub fn new() -> (r: DeviceRegistry)
        ensures
            r@ == Seq::<DeviceModel>::empty(),
            r.wf(),
    {
        let r = DeviceRegistry { devices: Vec::new() };
        assert(r@ =~= Seq::<DeviceModel>::empty());
        r
    }

    /// How many peers are tracked.
    pub fn len(&self) -> (r: usize)
        ensures
            r == self@.len(),
    {
        self.devices.len()
    }

    /// Whether a peer with this address is tracked.
    pub fn contains(&self, addr: &Address) -> (r: bool)
        ensures
            r == knows(self@, addr@),
    {
        let mut i: usize = 0;
        while i < self.devices.len()
            invariant
                i <= self.devices@.len(),
                self@ == models(self.devices@),
                forall|j: int| 0 <= j < i ==> self@[j].addr != addr@,
            decreases self.devices@.len() - i,
        {
            if same_address(&self.devices[i].addr, addr) {
                assert(self@[i as int].addr == addr@);
                return true;
            }
            i = i + 1;
        }
        false
    }

    /// Records a sighting. A known address is ignored and gives `None`; a
    /// new one is recorded with its first name and service flag and given
    /// back.
    pub fn track_device(
        &mut self,
        addr: Address,
        local_name: Option<String>,
        services: &Vec<u128>,
        service_data_uuids: &Vec<u128>,
    ) -> (r: Option<TrackedDevice>)
        requires
            old(self).wf(),
        ensures
            final(self).wf(),
            final(self)@ == track(
                old(self)@,
                sighted(addr@, name_view(local_name), services@, service_data_uuids@),
            ).0,
            match r {
                Some(d) => track(
                    old(self)@,
                    sighted(addr@, name_view(local_name), services@, service_data_uuids@),
                ).1 == Some(d@),
                None => track(
                    old(self)@,
                    sighted(addr@, name_view(local_name), services@, service_data_uuids@),
                ).1 is None,
            },
    {
        if self.contains(&addr) {
            return None;
        }
        let name = match local_name {
            Some(n) => n,
            None => UNKNOWN_NAME.to_string(),
        };
        let has_service = vec_contains(services, VENDOR_SERVICE_UUID) || vec_contains(
            service_data_uuids,
            VENDOR_SERVICE_UUID,
        );
        let device = TrackedDevice { addr, name: Some(name), has_xiaomi_service: has_service };
        let copy = device.clone();
        let ghost before = self@;
        self.devices.push(device);
        assert(self@ =~= before.push(copy@));
        Some(copy)
    }

    /// Records a sighting and says what to report: the peer, when it is new
    /// and a scooter candidate.
    pub fn discover(
        &mut self,
        addr: Address,
        local_name: Option<String>,
        services: &Vec<u128>,
        service_data_uuids: &Vec<u128>,
    ) -> (r: Option<ScannerEvent>)
        requires
            old(self).wf(),
        ensures
            final(self).wf(),
            final(self)@ == track(
                old(self)@,
                sighted(addr@, name_view(local_name), services@, service_data_uuids@),
            ).0,
            match r {
                Some(ScannerEvent::DiscoveredScooter(d)) => event_of(
                    old(self)@,
                    sighted(addr@, name_view(local_name), services@, service_data_uuids@),
                ) == Some(d@),
                None => event_of(
                    old(self)@,
                    sighted(addr@, name_view(local_name), services@, service_data_uuids@),
                ) is None,
            },
    {
        match self.track_device(addr, local_name, services, service_data_uuids) {
            Some(d) => {
                if d.is_scooter() {
                    Some(ScannerEvent::DiscoveredScooter(d))
                } else {
                    None
                }
            },
            None => None,
        }
    }

    /// A snapshot of the tracked scooter candidates, in order of discovery.
    pub fn scooters(&self) -> (r: Vec<TrackedDevice>)
        ensures
            models(r@) == self@.filter(|d: DeviceModel| is_scooter_model(d)),
    {
        let mut r: Vec<TrackedDevice> = Vec::new();
        let mut i: usize = 0;
        while i < self.devices.len()
            invariant
                i <= self.devices@.len(),
                self@ == models(self.devices@),
                models(r@) == self@.subrange(0, i as int).filter(|d: DeviceModel| is_scooter_model(d)),
            decreases self.devices@.len() - i,
        {
            proof {
                reveal(Seq::filter);
                assert(self@.subrange(0, i + 1).drop_last() =~= self@.subrange(0, i as int));
            }
            let ghost before = r@;
            if self.devices[i].is_scooter() {
                r.push(self.devices[i].clone());
                assert(models(r@) =~= models(before).push(self@[i as int]));
            }
            i = i + 1;
        }
        assert(self@.subrange(0, self@.len() as int) =~= self@);
        r
    }

    /// A snapshot of all tracked peers, in order of discovery.
    pub fn devices(&self) -> (r: Vec<TrackedDevice>)
        ensures
            models(r@) == self@,
    {
        let mut r: Vec<TrackedDevice> = Vec::new();
        let mut i: usize = 0;
        while i < self.devices.len()
            invariant
                i <= self.devices@.len(),
                self@ == models(self.devices@),
                models(r@) == self@.subrange(0, i as int),
            decreases self.devices@.len() - i,
        {
            let ghost before = r@;
            r.push(self.devices[i].clone());
            assert(models(r@) =~= models(before).push(self@[i as int]));
            i = i + 1;
            assert(models(r@) =~= self@.subrange(0, i as int));
        }
        assert(self@.subrange(0, self@.len() as int) =~= self@);
        r
    }
}

/// Feeds sightings in order: the registry at the end and the events
/// reported on the way.
pub open spec fn run_sightings(v: Seq<DeviceModel>, ss: Seq<DeviceModel>) -> (
    Seq<DeviceModel>,
    Seq<DeviceModel>,
)
    decreases ss.len(),
{
    if ss.len() == 0 {
        (v, Seq::empty())
    } else {
        let rest = run_sightings(track(v, ss[0]).0, ss.drop_first());
        match event_of(v, ss[0]) {
            Some(d) => (rest.0, seq![d] + rest.1),
            None => rest,
        }
    }
}

/// How many of some peers have address `a`.
pub open spec fn count_addr(e: Seq<DeviceModel>, a: Seq<u8>) -> nat
    decreases e.len(),
{
    if e.len() == 0 {
        0
    } else {
        (if e[0].addr == a {
            1nat
        } else {
            0nat
        }) + count_addr(e.drop_first(), a)
    }
}

/// The first sighting of address `a`, if any.
pub open spec fn first_sighting(ss: Seq<DeviceModel>, a: Seq<u8>) -> Option<DeviceModel>
    decreases ss.len(),
{
    if ss.len() == 0 {
        None
    } else if ss[0].addr == a {
        Some(ss[0])
    } else {
        first_sighting(ss.drop_first(), a)
    }
}

proof fn lemma_knows_push(v: Seq<DeviceModel>, s: DeviceModel, a: Seq<u8>)
    ensures
        knows(v.push(s), a) == (knows(v, a) || s.addr == a),
{
    if knows(v, a) {
        let i = choose|i: int| 0 <= i < v.len() && v[i].addr == a;
        assert(v.push(s)[i].addr == a);
    }
    if s.addr == a {
        assert(v.push(s)[v.len() as int].addr == a);
    }
    if knows(v.push(s), a) {
        let i = choose|i: int| 0 <= i < v.push(s).len() && v.push(s)[i].addr == a;
        if i < v.len() {
            assert(v[i].addr == a);
        }
    }
}

proof fn lemma_count_prepend(d: DeviceModel, e: Seq<DeviceModel>, a: Seq<u8>)
    ensures
        count_addr(seq![d] + e, a) == (if d.addr == a {
            1nat
        } else {
            0nat
        }) + count_addr(e, a),
{
    assert((seq![d] + e).drop_first() =~= e);
}

/// Over any sequence of sightings, the events for one address number
/// exactly one when the address was not yet tracked and its first sighting
/// is a scooter candidate, and none otherwise: repeated sightings of an
/// address never report it again.
pub proof fn lemma_one_event_per_address(v: Seq<DeviceModel>, ss: Seq<DeviceModel>, a: Seq<u8>)
    ensures
        count_addr(run_sightings(v, ss).1, a) == (if !knows(v, a) && first_sighting(ss, a) is Some
            && is_scooter_model(first_sighting(ss, a).unwrap()) {
            1nat
        } else {
            0nat
        }),
    decreases ss.len(),
{
    if ss.len() > 0 {
        let s = ss[0];
        let v1 = track(v, s).0;
        lemma_one_event_per_address(v1, ss.drop_first(), a);
        if !knows(v, s.addr) {
            lemma_knows_push(v, s, a);
        }
        let rest = run_sightings(v1, ss.drop_first());
        match event_of(v, s) {
            Some(d) => {
                lemma_count_prepend(d, rest.1, a);
            },
            None => {},
        }
    }
}

/// Tracking never holds one address twice.
pub proof fn lemma_track_keeps_addresses_unique(v: Seq<DeviceModel>, s: DeviceModel)
    requires
        unique_addresses(v),
    ensures
        unique_addresses(track(v, s).0),
{
    if !knows(v, s.addr) {
        let w = v.push(s);
        assert forall|i: int, j: int| 0 <= i < j < w.len() implies w[i].addr != w[j].addr by {
            if j == v.len() {
                if w[i].addr == w[j].addr {
                    assert(v[i].addr == s.addr);
                }
            }
        }
    }
}

} // verus!
