use vstd::prelude::*;

verus! {

/// What happened to a device, as the hotplug notifier reports it.
#[derive(Clone, Copy, Debug, PartialEq, Eq, Structural)]
pub enum EventType {
    Add,
    Change,
    Remove,
    Unknown,
}

/// The byte contents of a list of property pairs.
pub open spec fn pairs_view(ps: Seq<(Vec<u8>, Vec<u8>)>) -> Seq<(Seq<u8>, Seq<u8>)> {
    ps.map_values(|p: (Vec<u8>, Vec<u8>)| (p.0@, p.1@))
}

/// The map that a list of property pairs gives when it is read in order, a
/// later pair replacing an earlier one with the same name.
pub open spec fn props_map(ps: Seq<(Seq<u8>, Seq<u8>)>) -> Map<Seq<u8>, Seq<u8>>
    decreases ps.len(),
{
    if ps.len() == 0 {
        Map::empty()
    } else {
        props_map(ps.drop_last()).insert(ps.last().0, ps.last().1)
    }
}

pub open spec fn distinct_names(ps: Seq<(Seq<u8>, Seq<u8>)>) -> bool {
    forall|i: int, j: int| 0 <= i < j < ps.len() ==> #[trigger] ps[i].0 != #[trigger] ps[j].0
}

/// Where no pair from `i` on has the name `k`, the first `i` pairs decide `k`.
proof fn lemma_props_prefix(ps: Seq<(Seq<u8>, Seq<u8>)>, k: Seq<u8>, i: int)
    requires
        0 <= i <= ps.len(),
        forall|j: int| i <= j < ps.len() ==> #[trigger] ps[j].0 != k,
    ensures
        props_map(ps).contains_key(k) == props_map(ps.take(i)).contains_key(k),
        props_map(ps)[k] == props_map(ps.take(i))[k],
    decreases ps.len(),
{
    if i < ps.len() {
        let init = ps.drop_last();
        assert(ps[ps.len() - 1].0 != k);
        assert forall|j: int| i <= j < init.len() implies #[trigger] init[j].0 != k by {
            assert(init[j] == ps[j]);
        }
        lemma_props_prefix(init, k, i);
        assert(init.take(i) =~= ps.take(i));
    } else {
        assert(ps.take(i) =~= ps);
    }
}

/// Exactly the names of the pairs are keys of their map; where the names are
/// distinct, each name maps to the value paired with it.
pub proof fn lemma_props_lookup(ps: Seq<(Seq<u8>, Seq<u8>)>)
    ensures
        forall|k: Seq<u8>|
            #[trigger] props_map(ps).contains_key(k) <==> exists|i: int| 0 <= i < ps.len() && ps[i].0 == k,
        distinct_names(ps) ==> forall|i: int|
            0 <= i < ps.len() ==> #[trigger] props_map(ps)[ps[i].0] == ps[i].1,
        props_map(ps).dom().finite(),
        distinct_names(ps) ==> props_map(ps).dom().len() == ps.len(),
    decreases ps.len(),
{
    if ps.len() == 0 {
        assert(props_map(ps).dom() =~= Set::empty());
    } else {
        let init = ps.drop_last();
        lemma_props_lookup(init);
        let last = ps.last();
        assert forall|k: Seq<u8>|
            #[trigger] props_map(ps).contains_key(k) <==> exists|i: int| 0 <= i < ps.len() && ps[i].0 == k by {
            assert(props_map(ps) == props_map(init).insert(last.0, last.1));
            assert(props_map(init).contains_key(k) <==> exists|i: int| 0 <= i < init.len() && init[i].0 == k);
            if props_map(ps).contains_key(k) && k != last.0 {
                assert(props_map(init).contains_key(k));
                let i = choose|i: int| 0 <= i < init.len() && init[i].0 == k;
                assert(ps[i] == init[i]);
            }
            if exists|i: int| 0 <= i < ps.len() && ps[i].0 == k {
                let i = choose|i: int| 0 <= i < ps.len() && ps[i].0 == k;
                if i < init.len() {
                    assert(init[i] == ps[i]);
                }
            }
        }
        if distinct_names(ps) {
            assert(distinct_names(init)) by {
                assert forall|i: int, j: int| 0 <= i < j < init.len() implies #[trigger] init[i].0 != #[trigger] init[j].0 by {
                    assert(init[i] == ps[i] && init[j] == ps[j]);
                }
            }
            assert forall|i: int| 0 <= i < ps.len() implies #[trigger] props_map(ps)[ps[i].0] == ps[i].1 by {
                if i < init.len() {
                    assert(init[i] == ps[i]);
                    assert(ps[i].0 != ps[ps.len() - 1].0);
                }
            }
            assert(!props_map(init).contains_key(last.0)) by {
                if props_map(init).contains_key(last.0) {
                    let i = choose|i: int| 0 <= i < init.len() && init[i].0 == last.0;
                    assert(init[i] == ps[i]);
                    assert(ps[i].0 != ps[ps.len() - 1].0);
                }
            }
            assert(props_map(ps).dom() =~= props_map(init).dom().insert(last.0));
        }
        assert(props_map(ps).dom() =~= props_map(init).dom().insert(last.0));
    }
}

/// Whether two byte strings are equal.
fn bytes_eq(a: &[u8], b: &[u8]) -> (r: bool)
    ensures
        r == (a@ == b@),
{
    if a.len() != b.len() {
        return false;
    }
    let mut i: usize = 0;
    while i < a.len()
        invariant
            a@.len() == b@.len(),
            0 <= i <= a@.len(),
            forall|j: int| 0 <= j < i ==> a@[j] == b@[j],
        decreases a@.len() - i,
    {
        if a[i] != b[i] {
            return false;
        }
        i = i + 1;
    }
    assert(a@ =~= b@);
    true
}

/// An owned copy of a device as a hotplug notification described it.
pub struct UdevEngineDevice {
    is_initialized: bool,
    devnode: Option<String>,
    devnum: Option<u64>,
    properties: Vec<(Vec<u8>, Vec<u8>)>,
}

impl UdevEngineDevice {
    pub closed spec fn spec_is_initialized(&self) -> bool {
        self.is_initialized
    }

    pub closed spec fn spec_devnode(&self) -> Option<Seq<char>> {
        match self.devnode {
            Some(p) => Some(p@),
            None => None,
        }
    }

    pub closed spec fn spec_devnum(&self) -> Option<u64> {
        self.devnum
    }

    /// The device's properties, by name.
    pub closed spec fn spec_properties(&self) -> Map<Seq<u8>, Seq<u8>> {
        props_map(pairs_view(self.properties@))
    }

    /// Takes a copy of every field of a device; a later property replaces an
    /// earlier one with the same name.
    pub fn new(
        is_initialized: bool,
        devnode: Option<String>,
        devnum: Option<u64>,
        properties: Vec<(Vec<u8>, Vec<u8>)>,
    ) -> (r: UdevEngineDevice)
        ensures
            r.spec_is_initialized() == is_initialized,
            r.spec_devnode() == (match devnode {
                Some(p) => Some(p@),
                None => None::<Seq<char>>,
            }),
            r.spec_devnum() == devnum,
            r.spec_properties() == props_map(pairs_view(properties@)),
    {
        UdevEngineDevice { is_initialized, devnode, devnum, properties }
    }

    pub fn is_initialized(&self) -> (r: bool)
        ensures
            r == self.spec_is_initialized(),
    {
        self.is_initialized
    }

    /// The path of the device node, if the device has one.
    pub fn devnode(&self) -> (r: Option<&str>)
        ensures
            match r {
                Some(p) => self.spec_devnode() == Some(p@),
                None => self.spec_devnode() is None,
            },
    {
        match &self.devnode {
            Some(p) => Some(p.as_str()),
            None => None,
        }
    }

    /// The device number, if the device has one.
    pub fn devnum(&self) -> (r: Option<u64>)
        ensures
            r == self.spec_devnum(),
    {
        self.devnum
    }

    /// The value of the property with the given name, if there is one.
    pub fn property_value(&self, property_name: &[u8]) -> (r: Option<&[u8]>)
        ensures
            match r {
                Some(v) => self.spec_properties().contains_key(property_name@)
                    && self.spec_properties()[property_name@] == v@,
                None => !self.spec_properties().contains_key(property_name@),
            },
    {
        let ghost ps = pairs_view(self.properties@);
        let mut i: usize = self.properties.len();
        while i > 0
            invariant
                0 <= i <= self.properties@.len(),
                ps == pairs_view(self.properties@),
                forall|j: int| i <= j < ps.len() ==> #[trigger] ps[j].0 != property_name@,
            decreases i,
        {
            let k = i - 1;
            if bytes_eq(self.properties[k].0.as_slice(), property_name) {
                proof {
                    lemma_props_prefix(ps, property_name@, i as int);
                    assert(ps.take(i as int).drop_last() =~= ps.take(k as int));
                }
                return Some(self.properties[k].1.as_slice());
            }
            i = k;
        }
        proof {
            lemma_props_prefix(ps, property_name@, 0);
        }
        None
    }
}

/// An owned copy of a hotplug notification: what happened, and to which device.
pub struct UdevEngineEvent {
    event_type: EventType,
    device: UdevEngineDevice,
}

impl UdevEngineEvent {
    pub closed spec fn spec_event_type(&self) -> EventType {
        self.event_type
    }

    pub closed spec fn spec_device(&self) -> UdevEngineDevice {
        self.device
    }

    pub fn new(event_type: EventType, device: UdevEngineDevice) -> (r: UdevEngineEvent)
        ensures
            r.spec_event_type() == event_type,
            r.spec_device() == device,
    {
        UdevEngineEvent { event_type, device }
    }

    pub fn event_type(&self) -> (r: EventType)
        ensures
            r == self.spec_event_type(),
    {
        self.event_type
    }

    pub fn device(&self) -> (r: &UdevEngineDevice)
        ensures
            *r == self.spec_device(),
    {
        &self.device
    }
}

} // verus!
