use vstd::prelude::*;
use vstd::string::*;

verus! {

broadcast use vstd::string::group_string_axioms;

/// The string stored under `key` in the JSON object that `payload` encodes;
/// `None` when `payload` is not JSON, not an object, has no such member, or
/// the member is not a string.
pub uninterp spec fn json_string_member(payload: Seq<u8>, key: Seq<char>) -> Option<Seq<char>>;

/// Parses `payload` with `serde_json::from_slice` into a `serde_json::Value`
/// and reads the string member `key` of the object with `Value::as_object`,
/// `Map::get` and `Value::as_str`. Claimed: the result is the same for the
/// same bytes and key (serde_json parses deterministically); nothing is
/// claimed about which inputs parse.
#[verifier::external_body]
fn json_string_field(payload: &[u8], key: &str) -> (r: Option<String>)
    ensures
        r matches Some(s) ==> json_string_member(payload@, key@) == Some(s@),
        r is None ==> json_string_member(payload@, key@) is None,
{
    let value: serde_json::Value = match serde_json::from_slice(payload) {
        Ok(v) => v,
        Err(_) => return None,
    };
    let member = match value.as_object() {
        Some(object) => object.get(key),
        None => None,
    };
    match member {
        Some(m) => m.as_str().map(str::to_owned),
        None => None,
    }
}

/// The gateway a beacon advertises: the `gateway_url` string of its JSON payload.
pub open spec fn advertised_gateway(payload: Seq<u8>) -> Option<Seq<char>> {
    json_string_member(payload, "gateway_url"@)
}

/// What to do with a beacon.
#[derive(Debug)]
pub enum BeaconDecision {
    /// The beacon advertises no gateway.
    NoGateway,
    /// The advertised gateway is this node's own or is already connected.
    AlreadyConnected(String),
    /// A new gateway: connect to it and register the beacon with it.
    Connect(String),
}

/// Mathematical value of a [`BeaconDecision`].
pub enum DecisionView {
    NoGateway,
    AlreadyConnected(Seq<char>),
    Connect(Seq<char>),
}

impl View for BeaconDecision {
    type V = DecisionView;

    open spec fn view(&self) -> DecisionView {
        match self {
            BeaconDecision::NoGateway => DecisionView::NoGateway,
            BeaconDecision::AlreadyConnected(u) => DecisionView::AlreadyConnected(u@),
            BeaconDecision::Connect(u) => DecisionView::Connect(u@),
        }
    }
}

/// The decision for a beacon advertising `url`, given the gateways known so far.
pub open spec fn beacon_decision(known: Set<Seq<char>>, url: Option<Seq<char>>) -> DecisionView {
    match url {
        None => DecisionView::NoGateway,
        Some(u) => if known.contains(u) {
            DecisionView::AlreadyConnected(u)
        } else {
            DecisionView::Connect(u)
        },
    }
}

/// The known gateways after a beacon advertising `url`.
pub open spec fn known_after(known: Set<Seq<char>>, url: Option<Seq<char>>) -> Set<Seq<char>> {
    match url {
        None => known,
        Some(u) => known.insert(u),
    }
}

/// The gateways this node connects to as beacons advertise them. It starts
/// with the node's own configured gateway, so that beacons advertising it
/// do not trigger a redundant connection.
pub struct BeaconTracker {
    known: Vec<String>,
}

impl View for BeaconTracker {
    type V = Set<Seq<char>>;

    closed spec fn view(&self) -> Set<Seq<char>> {
        Set::new(|u: Seq<char>| exists|i: int| 0 <= i < self.known@.len() && #[trigger] self.known@[i]@ == u)
    }
}

impl BeaconTracker {
    pub fn new(own_gateway_url: Option<String>) -> (t: BeaconTracker)
        ensures
            t@ == (match own_gateway_url {
                Some(u) => Set::<Seq<char>>::empty().insert(u@),
                None => Set::<Seq<char>>::empty(),
            }),
    {
        let mut known: Vec<String> = Vec::new();
        let ghost own = own_gateway_url;
        match own_gateway_url {
            Some(u) => {
                known.push(u);
            },
            None => {},
        }
        let t = BeaconTracker { known };
        proof {
            match own {
                Some(u) => {
                    assert(t.known@[0]@ == u@);
                    assert(t@ =~= Set::<Seq<char>>::empty().insert(u@));
                },
                None => {
                    assert(t@ =~= Set::<Seq<char>>::empty());
                },
            }
        }
        t
    }

    /// Whether `url` is a known gateway.
    pub fn knows(&self, url: &String) -> (r: bool)
        ensures
            r == self@.contains(url@),
    {
        let mut i: usize = 0;
        while i < self.known.len()
            invariant
                i <= self.known@.len(),
                forall|j: int| 0 <= j < i ==> self.known@[j]@ != url@,
            decreases self.known.len() - i,
        {
            if self.known[i] == *url {
                assert(self.known@[i as int]@ == url@);
                return true;
            }
            i = i + 1;
        }
        false
    }

    /// Decide on a beacon whose advertised gateway is `url`, and remember a
    /// new gateway.
    pub fn decide(&mut self, url: Option<String>) -> (d: BeaconDecision)
        ensures
            d@ == beacon_decision(old(self)@, match url { Some(u) => Some(u@), None => None }),
            final(self)@ == known_after(old(self)@, match url { Some(u) => Some(u@), None => None }),
    {
        match url {
            None => BeaconDecision::NoGateway,
            Some(u) => {
                if self.knows(&u) {
                    assert(old(self)@.insert(u@) =~= old(self)@);
                    BeaconDecision::AlreadyConnected(u)
                } else {
                    let ghost before = self.known@;
                    let copy = u.clone();
                    self.known.push(copy);
                    proof {
                        assert forall|x: Seq<char>| #[trigger] self@.contains(x) <==> old(self)@.insert(u@).contains(x) by {
                            if old(self)@.contains(x) {
                                let j = choose|j: int| 0 <= j < before.len() && #[trigger] before[j]@ == x;
                                assert(self.known@[j]@ == x);
                            }
                            if self@.contains(x) {
                                let j = choose|j: int| 0 <= j < self.known@.len() && #[trigger] self.known@[j]@ == x;
                                if j < before.len() {
                                    assert(before[j]@ == x);
                                }
                            }
                            if x == u@ {
                                assert(self.known@[before.len() as int]@ == x);
                            }
                        }
                        assert(self@ =~= old(self)@.insert(u@));
                    }
                    BeaconDecision::Connect(u)
                }
            },
        }
    }

    /// Decide on an MQTT beacon message from its raw payload.
    pub fn on_beacon(&mut self, payload: &[u8]) -> (d: BeaconDecision)
        ensures
            d@ == beacon_decision(old(self)@, advertised_gateway(payload@)),
            final(self)@ == known_after(old(self)@, advertised_gateway(payload@)),
    {
        proof {
            reveal_strlit("gateway_url");
        }
        let url = json_string_field(payload, "gateway_url");
        self.decide(url)
    }
}

/// Beacons advertising the node's own gateway never open a connection.
pub proof fn law_own_gateway_never_connected(own: Seq<char>)
    ensures
        beacon_decision(Set::<Seq<char>>::empty().insert(own), Some(own)) == DecisionView::AlreadyConnected(own),
{
}

/// Each gateway is connected at most once: once a beacon has made the node
/// connect to a gateway, every later beacon advertising it, after any other
/// beacons, is told the gateway is already connected.
pub proof fn law_connect_at_most_once(known: Set<Seq<char>>, u: Seq<char>, later: Seq<Option<Seq<char>>>)
    requires
        beacon_decision(known, Some(u)) == DecisionView::Connect(u),
    ensures
        beacon_decision(known_after_all(known_after(known, Some(u)), later), Some(u)) == DecisionView::AlreadyConnected(u),
{
    lemma_known_grows(known_after(known, Some(u)), later);
}

/// The known gateways after a series of beacons.
pub open spec fn known_after_all(known: Set<Seq<char>>, urls: Seq<Option<Seq<char>>>) -> Set<Seq<char>>
    decreases urls.len(),
{
    if urls.len() == 0 {
        known
    } else {
        known_after(known_after_all(known, urls.drop_last()), urls.last())
    }
}

/// A gateway once known stays known.
pub proof fn lemma_known_grows(known: Set<Seq<char>>, urls: Seq<Option<Seq<char>>>)
    ensures
        known.subset_of(known_after_all(known, urls)),
    decreases urls.len(),
{
    if urls.len() > 0 {
        lemma_known_grows(known, urls.drop_last());
    }
}

} // verus!
