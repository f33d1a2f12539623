//! How the switcher routes attribute values between its services: each
//! device's attributes have an owner (the service that drives the device),
//! and any service may observe an attribute, or all of them with `#`.

use vstd::prelude::*;
use vstd::string::StringExecFns;
use crate::switcher::eval::{SwValue, SwValueV};

verus! {

/// A message about attributes, from the service `sender_id`: it owns the
/// device `name`; it observes or no longer observes the attribute `name`;
/// the attribute `name` (`device.attribute`) has a value.
#[derive(Debug)]
pub enum SwMessage {
    AttrOwner { sender_id: usize, name: String },
    ObserveAttr { sender_id: usize, name: String },
    UnobserveAttr { sender_id: usize, name: String },
    DevAttr { sender_id: usize, name: String, value: SwValue },
}

/// The model of a message.
pub enum SwMessageV {
    AttrOwner { sender_id: usize, name: Seq<char> },
    ObserveAttr { sender_id: usize, name: Seq<char> },
    UnobserveAttr { sender_id: usize, name: Seq<char> },
    DevAttr { sender_id: usize, name: Seq<char>, value: SwValueV },
}

impl View for SwMessage {
    type V = SwMessageV;

    open spec fn view(&self) -> SwMessageV {
        match self {
            SwMessage::AttrOwner { sender_id, name } => SwMessageV::AttrOwner {
                sender_id: *sender_id,
                name: name@,
            },
            SwMessage::ObserveAttr { sender_id, name } => SwMessageV::ObserveAttr {
                sender_id: *sender_id,
                name: name@,
            },
            SwMessage::UnobserveAttr { sender_id, name } => SwMessageV::UnobserveAttr {
                sender_id: *sender_id,
                name: name@,
            },
            SwMessage::DevAttr { sender_id, name, value } => SwMessageV::DevAttr {
                sender_id: *sender_id,
                name: name@,
                value: value@,
            },
        }
    }
}

/// Who owns which device, who observes which attribute, and how many
/// services there are (the ids that messages can be sent to are those
/// below it).
pub struct Routing {
    pub owners: Vec<(String, usize)>,
    pub observers: Vec<(String, Vec<usize>)>,
    pub services: usize,
}

/// The model of the routing.
pub struct RoutingV {
    pub owners: Seq<(Seq<char>, usize)>,
    pub observers: Seq<(Seq<char>, Seq<usize>)>,
    pub services: usize,
}

impl View for Routing {
    type V = RoutingV;

    open spec fn view(&self) -> RoutingV {
        RoutingV {
            owners: self.owners@.map_values(|p: (String, usize)| (p.0@, p.1)),
            observers: self.observers@.map_values(|p: (String, Vec<usize>)| (p.0@, p.1@)),
            services: self.services,
        }
    }
}

/// A value sent to a service: who sent it, the attribute and the value.
pub struct Delivery {
    pub receiver_id: usize,
    pub sender_id: usize,
    pub name: String,
    pub value: SwValue,
}

/// The model of a delivery.
pub struct DeliveryV {
    pub receiver_id: usize,
    pub sender_id: usize,
    pub name: Seq<char>,
    pub value: SwValueV,
}

impl View for Delivery {
    type V = DeliveryV;

    open spec fn view(&self) -> DeliveryV {
        DeliveryV {
            receiver_id: self.receiver_id,
            sender_id: self.sender_id,
            name: self.name@,
            value: self.value@,
        }
    }
}

/// The index of the last entry named `k`, or -1.
pub open spec fn find_named<T>(es: Seq<(Seq<char>, T)>, k: Seq<char>) -> int
    decreases es.len(),
{
    if es.len() == 0 {
        -1
    } else if es.last().0 == k {
        es.len() - 1
    } else {
        find_named(es.drop_last(), k)
    }
}

/// The ids without `x`, in order.
pub open spec fn without(s: Seq<usize>, x: usize) -> Seq<usize>
    decreases s.len(),
{
    if s.len() == 0 {
        Seq::empty()
    } else {
        let r = without(s.drop_last(), x);
        if s.last() == x {
            r
        } else {
            r.push(s.last())
        }
    }
}

/// The deliveries of a value to the observers in `ids`: all but the sender,
/// ids that are no service and ids in `skip` (served already), in order.
pub open spec fn deliveries(
    ids: Seq<usize>,
    skip: Seq<usize>,
    services: usize,
    sender_id: usize,
    name: Seq<char>,
    value: SwValueV,
) -> Seq<DeliveryV>
    decreases ids.len(),
{
    if ids.len() == 0 {
        Seq::empty()
    } else {
        let r = deliveries(ids.drop_last(), skip, services, sender_id, name, value);
        let id = ids.last();
        if id != sender_id && id < services && !skip.contains(id) {
            r.push(DeliveryV { receiver_id: id, sender_id, name, value })
        } else {
            r
        }
    }
}

/// The observers of an attribute name (none where nobody observes it).
pub open spec fn observers_of(obs: Seq<(Seq<char>, Seq<usize>)>, name: Seq<char>) -> Seq<usize> {
    let i = find_named(obs, name);
    if i >= 0 {
        obs[i].1
    } else {
        Seq::empty()
    }
}

/// Whether `i` is the first dot of a name.
pub open spec fn first_dot(name: Seq<char>, i: int) -> bool {
    0 <= i < name.len() && name[i] == '.' && forall|j: int| 0 <= j < i ==> name[j] != '.'
}

/// The device part of an attribute name: what comes before its first dot,
/// where it has one.
pub open spec fn device_of(name: Seq<char>) -> Option<Seq<char>> {
    if exists|i: int| first_dot(name, i) {
        Some(name.take(choose|i: int| first_dot(name, i)))
    } else {
        None
    }
}

/// The routing after a message, and the values it sends on. The first
/// service to claim a device owns it. Observing adds the service to the
/// attribute's observers (once); no longer observing takes it out. A value
/// set from outside the devices (sender 0) of an attribute of a device with
/// an owner goes to the owner alone (the owner sends it on once the device
/// took it); any other value goes to the observers of all attributes (`#`),
/// then to those of the attribute that were not served already, but not back
/// to its sender.
pub open spec fn spec_route(st: RoutingV, m: SwMessageV) -> (RoutingV, Seq<DeliveryV>) {
    match m {
        SwMessageV::AttrOwner { sender_id, name } => if find_named(st.owners, name) >= 0 {
            (st, Seq::empty())
        } else {
            (RoutingV { owners: st.owners.push((name, sender_id)), ..st }, Seq::empty())
        },
        SwMessageV::ObserveAttr { sender_id, name } => {
            let i = find_named(st.observers, name);
            if i >= 0 {
                let ids = st.observers[i].1;
                if ids.contains(sender_id) {
                    (st, Seq::empty())
                } else {
                    (
                        RoutingV {
                            observers: st.observers.update(i, (name, ids.push(sender_id))),
                            ..st
                        },
                        Seq::empty(),
                    )
                }
            } else {
                (
                    RoutingV { observers: st.observers.push((name, seq![sender_id])), ..st },
                    Seq::empty(),
                )
            }
        },
        SwMessageV::UnobserveAttr { sender_id, name } => {
            let i = find_named(st.observers, name);
            if i >= 0 {
                (
                    RoutingV {
                        observers: st.observers.update(
                            i,
                            (name, without(st.observers[i].1, sender_id)),
                        ),
                        ..st
                    },
                    Seq::empty(),
                )
            } else {
                (st, Seq::empty())
            }
        },
        SwMessageV::DevAttr { sender_id, name, value } => {
            let to_owner = match device_of(name) {
                Some(dev) => {
                    let o = find_named(st.owners, dev);
                    if sender_id == 0 && o >= 0 && st.owners[o].1 < st.services {
                        Some(st.owners[o].1)
                    } else {
                        None
                    }
                },
                None => None,
            };
            match to_owner {
                Some(owner) => (
                    st,
                    seq![DeliveryV { receiver_id: owner, sender_id, name, value }],
                ),
                None => (
                    st,
                    deliveries(
                        observers_of(st.observers, "#"@),
                        Seq::empty(),
                        st.services,
                        sender_id,
                        name,
                        value,
                    ) + deliveries(
                        observers_of(st.observers, name),
                        observers_of(st.observers, "#"@),
                        st.services,
                        sender_id,
                        name,
                        value,
                    ),
                ),
            }
        },
    }
}

/// The index of the last owner entry named `k`, as `find_named` says.
fn find_owner(es: &Vec<(String, usize)>, k: &String) -> (r: Option<usize>)
    ensures
        match r {
            Some(i) => i < es@.len() && i as int == find_named(
                es@.map_values(|p: (String, usize)| (p.0@, p.1)),
                k@,
            ),
            None => find_named(es@.map_values(|p: (String, usize)| (p.0@, p.1)), k@) == -1,
        },
{
    let ghost v = es@.map_values(|p: (String, usize)| (p.0@, p.1));
    let mut j: usize = es.len();
    proof {
        assert(v.take(j as int) =~= v);
    }
    while j > 0
        invariant
            j <= es@.len(),
            v == es@.map_values(|p: (String, usize)| (p.0@, p.1)),
            find_named(v, k@) == find_named(v.take(j as int), k@),
        decreases j,
    {
        proof {
            assert(v.take(j as int).drop_last() =~= v.take(j - 1));
            assert(v.take(j as int).last() == v[j - 1]);
        }
        if es[j - 1].0 == *k {
            return Some(j - 1);
        }
        j -= 1;
    }
    proof {
        assert(v.take(0) =~= Seq::<(Seq<char>, usize)>::empty());
    }
    None
}

/// The index of the last observer entry named `k`, as `find_named` says.
fn find_observed(es: &Vec<(String, Vec<usize>)>, k: &String) -> (r: Option<usize>)
    ensures
        match r {
            Some(i) => i < es@.len() && i as int == find_named(
                es@.map_values(|p: (String, Vec<usize>)| (p.0@, p.1@)),
                k@,
            ),
            None => find_named(es@.map_values(|p: (String, Vec<usize>)| (p.0@, p.1@)), k@) == -1,
        },
{
    let ghost v = es@.map_values(|p: (String, Vec<usize>)| (p.0@, p.1@));
    let mut j: usize = es.len();
    proof {
        assert(v.take(j as int) =~= v);
    }
    while j > 0
        invariant
            j <= es@.len(),
            v == es@.map_values(|p: (String, Vec<usize>)| (p.0@, p.1@)),
            find_named(v, k@) == find_named(v.take(j as int), k@),
        decreases j,
    {
        proof {
            assert(v.take(j as int).drop_last() =~= v.take(j - 1));
            assert(v.take(j as int).last() == v[j - 1]);
        }
        if es[j - 1].0 == *k {
            return Some(j - 1);
        }
        j -= 1;
    }
    proof {
        assert(v.take(0) =~= Seq::<(Seq<char>, Seq<usize>)>::empty());
    }
    None
}

/// The ids with `x` added at the end, where it is not among them.
fn with_id(ids: &Vec<usize>, x: usize) -> (r: (Vec<usize>, bool))
    ensures
        r.1 == ids@.contains(x),
        r.0@ == ids@ + if r.1 {
            Seq::<usize>::empty()
        } else {
            seq![x]
        },
{
    let mut out: Vec<usize> = Vec::new();
    let mut found = false;
    let mut i: usize = 0;
    while i < ids.len()
        invariant
            i <= ids@.len(),
            out@ == ids@.take(i as int),
            found == exists|k: int| 0 <= k < i && ids@[k] == x,
        decreases ids@.len() - i,
    {
        proof {
            assert(ids@.take(i + 1) =~= ids@.take(i as int).push(ids@[i as int]));
        }
        if ids[i] == x {
            found = true;
        }
        out.push(ids[i]);
        i += 1;
    }
    proof {
        assert(ids@.take(ids@.len() as int) =~= ids@);
        assert(found == ids@.contains(x));
    }
    if !found {
        out.push(x);
    }
    proof {
        if found {
            assert(out@ =~= ids@ + Seq::<usize>::empty());
        } else {
            assert(out@ =~= ids@ + seq![x]);
        }
    }
    (out, found)
}

/// The ids without `x`, as `without` says.
fn without_id(ids: &Vec<usize>, x: usize) -> (r: Vec<usize>)
    ensures
        r@ == without(ids@, x),
{
    let mut out: Vec<usize> = Vec::new();
    let mut i: usize = 0;
    proof {
        assert(ids@.take(0) =~= Seq::<usize>::empty());
    }
    while i < ids.len()
        invariant
            i <= ids@.len(),
            out@ == without(ids@.take(i as int), x),
        decreases ids@.len() - i,
    {
        proof {
            assert(ids@.take(i + 1).drop_last() =~= ids@.take(i as int));
            assert(ids@.take(i + 1).last() == ids@[i as int]);
        }
        if ids[i] != x {
            out.push(ids[i]);
        }
        i += 1;
    }
    proof {
        assert(ids@.take(ids@.len() as int) =~= ids@);
    }
    out
}

/// Whether `id` is among `ids`.
fn has_id(ids: &Vec<usize>, id: usize) -> (r: bool)
    ensures
        r == ids@.contains(id),
{
    let mut i: usize = 0;
    while i < ids.len()
        invariant
            i <= ids@.len(),
            forall|j: int| 0 <= j < i ==> ids@[j] != id,
        decreases ids@.len() - i,
    {
        if ids[i] == id {
            return true;
        }
        i += 1;
    }
    false
}

/// Appends the deliveries of a value to the observers in `ids`, as
/// `deliveries` says.
fn deliver(
    ids: &Vec<usize>,
    skip: &Vec<usize>,
    services: usize,
    sender_id: usize,
    name: &String,
    value: &SwValue,
    out: &mut Vec<Delivery>,
)
    ensures
        final(out)@.map_values(|d: Delivery| d@) == old(out)@.map_values(|d: Delivery| d@)
            + deliveries(ids@, skip@, services, sender_id, name@, value@),
{
    let ghost o0 = out@.map_values(|d: Delivery| d@);
    let mut i: usize = 0;
    proof {
        assert(ids@.take(0) =~= Seq::<usize>::empty());
        assert(out@.map_values(|d: Delivery| d@) =~= o0 + Seq::<DeliveryV>::empty());
    }
    while i < ids.len()
        invariant
            i <= ids@.len(),
            out@.map_values(|d: Delivery| d@) == o0 + deliveries(
                ids@.take(i as int),
                skip@,
                services,
                sender_id,
                name@,
                value@,
            ),
        decreases ids@.len() - i,
    {
        let ghost before = out@.map_values(|d: Delivery| d@);
        proof {
            assert(ids@.take(i + 1).drop_last() =~= ids@.take(i as int));
            assert(ids@.take(i + 1).last() == ids@[i as int]);
        }
        let id = ids[i];
        if id != sender_id && id < services && !has_id(skip, id) {
            let d = Delivery { receiver_id: id, sender_id, name: name.clone(), value: value.copy() };
            let ghost dv = d@;
            out.push(d);
            proof {
                assert(out@.map_values(|d: Delivery| d@) =~= before.push(dv));
            }
        }
        i += 1;
    }
    proof {
        assert(ids@.take(ids@.len() as int) =~= ids@);
    }
}

/// The device part of an attribute name, as `device_of` says.
fn device_name(name: &String) -> (r: Option<String>)
    ensures
        match device_of(name@) {
            Some(d) => r matches Some(x) && x@ == d,
            None => r is None,
        },
{
    let cs = crate::http::chars_of(name.as_str());
    let mut i: usize = 0;
    while i < cs.len()
        invariant
            i <= cs@.len(),
            cs@ == name@,
            forall|j: int| 0 <= j < i ==> cs@[j] != '.',
        decreases cs@.len() - i,
    {
        if cs[i] == '.' {
            proof {
                assert(first_dot(name@, i as int));
                let c = choose|c: int| first_dot(name@, c);
                assert(c == i as int) by {
                    if c < i {
                        assert(cs@[c] != '.');
                    }
                    if c > i {
                        assert(name@[i as int] != '.');
                    }
                }
            }
            let d = crate::http::string_of(&cs.as_slice()[0..i]);
            proof {
                assert(d@ =~= name@.take(i as int));
            }
            return Some(d);
        }
        i += 1;
    }
    proof {
        assert forall|k: int| !first_dot(name@, k) by {
            if 0 <= k < name@.len() {
                assert(cs@[k] != '.');
            }
        }
    }
    None
}

/// Routes one message, as `spec_route` says.
pub fn route(st: &mut Routing, m: SwMessage) -> (out: Vec<Delivery>)
    ensures
        (final(st)@, out@.map_values(|d: Delivery| d@)) == spec_route(old(st)@, m@),
{
    let mut out: Vec<Delivery> = Vec::new();
    proof {
        assert(out@.map_values(|d: Delivery| d@) =~= Seq::<DeliveryV>::empty());
    }
    match m {
        SwMessage::AttrOwner { sender_id, name } => {
            match find_owner(&st.owners, &name) {
                Some(_) => {},
                None => {
                    let ghost v0 = st@.owners;
                    let ghost item = (name@, sender_id);
                    st.owners.push((name, sender_id));
                    proof {
                        assert(st@.owners =~= v0.push(item));
                    }
                },
            }
            out
        },
        SwMessage::ObserveAttr { sender_id, name } => {
            match find_observed(&st.observers, &name) {
                Some(i) => {
                    let (ids, found) = with_id(&st.observers[i].1, sender_id);
                    if !found {
                        let ghost v0 = st@.observers;
                        let ghost item = (name@, ids@);
                        st.observers.set(i, (name, ids));
                        proof {
                            assert(st@.observers =~= v0.update(i as int, item));
                            assert(ids@ == v0[i as int].1.push(sender_id));
                        }
                    }
                },
                None => {
                    let ghost v0 = st@.observers;
                    let mut ids: Vec<usize> = Vec::new();
                    ids.push(sender_id);
                    let ghost item = (name@, ids@);
                    st.observers.push((name, ids));
                    proof {
                        assert(ids@ =~= seq![sender_id]);
                        assert(st@.observers =~= v0.push(item));
                    }
                },
            }
            out
        },
        SwMessage::UnobserveAttr { sender_id, name } => {
            match find_observed(&st.observers, &name) {
                Some(i) => {
                    let ids = without_id(&st.observers[i].1, sender_id);
                    let ghost v0 = st@.observers;
                    let ghost item = (name@, ids@);
                    st.observers.set(i, (name, ids));
                    proof {
                        assert(st@.observers =~= v0.update(i as int, item));
                    }
                },
                None => {},
            }
            out
        },
        SwMessage::DevAttr { sender_id, name, value } => {
            let mut owner: Option<usize> = None;
            match device_name(&name) {
                Some(dev) => {
                    match find_owner(&st.owners, &dev) {
                        Some(o) => {
                            if sender_id == 0 && st.owners[o].1 < st.services {
                                owner = Some(st.owners[o].1);
                            }
                        },
                        None => {},
                    }
                },
                None => {},
            }
            match owner {
                Some(id) => {
                    let d = Delivery { receiver_id: id, sender_id, name, value };
                    let ghost dv = d@;
                    out.push(d);
                    proof {
                        assert(out@.map_values(|d: Delivery| d@) =~= seq![dv]);
                    }
                },
                None => {
                    let all = String::from_str("#");
                    proof {
                        reveal_strlit("#");
                    }
                    let none: Vec<usize> = Vec::new();
                    let every: &Vec<usize> = match find_observed(&st.observers, &all) {
                        Some(i) => &st.observers[i].1,
                        None => &none,
                    };
                    deliver(every, &none, st.services, sender_id, &name, &value, &mut out);
                    let ghost mid = out@.map_values(|d: Delivery| d@);
                    match find_observed(&st.observers, &name) {
                        Some(i) => {
                            deliver(&st.observers[i].1, every, st.services, sender_id, &name, &value, &mut out);
                        },
                        None => {
                            proof {
                                assert(out@.map_values(|d: Delivery| d@) =~= mid + Seq::<
                                    DeliveryV,
                                >::empty());
                            }
                        },
                    }
                    proof {
                        assert(deliveries(Seq::empty(), every@, st.services, sender_id, name@, value@)
                            =~= Seq::<DeliveryV>::empty());
                    }
                },
            }
            out
        },
    }
}

/// Every delivery to observers goes to a service other than the sender
/// that is among `ids` and not in `skip`; where `ids` holds each id once,
/// no service is served twice.
proof fn lemma_deliveries_skip_sender(
    ids: Seq<usize>,
    skip: Seq<usize>,
    services: usize,
    sender_id: usize,
    name: Seq<char>,
    value: SwValueV,
)
    ensures
        forall|i: int|
            0 <= i < deliveries(ids, skip, services, sender_id, name, value).len() ==> {
                let d = #[trigger] deliveries(ids, skip, services, sender_id, name, value)[i];
                &&& d.receiver_id != sender_id
                &&& d.receiver_id < services
                &&& d.sender_id == sender_id
                &&& d.name == name
                &&& d.value == value
                &&& ids.contains(d.receiver_id)
                &&& !skip.contains(d.receiver_id)
            },
        ids.no_duplicates() ==> forall|i: int, j: int|
            0 <= i < j < deliveries(ids, skip, services, sender_id, name, value).len()
                ==> #[trigger] deliveries(ids, skip, services, sender_id, name, value)[i].receiver_id
                != #[trigger] deliveries(ids, skip, services, sender_id, name, value)[j].receiver_id,
    decreases ids.len(),
{
    if ids.len() > 0 {
        let l = ids.drop_last();
        lemma_deliveries_skip_sender(l, skip, services, sender_id, name, value);
        let r = deliveries(l, skip, services, sender_id, name, value);
        let out = deliveries(ids, skip, services, sender_id, name, value);
        assert forall|i: int| 0 <= i < r.len() implies ids.contains(#[trigger] r[i].receiver_id) by {
            let k = choose|k: int| 0 <= k < l.len() && l[k] == r[i].receiver_id;
            assert(ids[k] == l[k]);
        }
        if ids.no_duplicates() {
            assert(l.no_duplicates());
            assert forall|i: int| 0 <= i < r.len() implies #[trigger] r[i].receiver_id != ids.last() by {
                let k = choose|k: int| 0 <= k < l.len() && l[k] == r[i].receiver_id;
                assert(ids[k] == l[k]);
            }
        }
    }
}

/// Each name stands at most once among owners and among observers, and
/// each attribute's observers hold each service at most once.
pub open spec fn routing_wf(st: RoutingV) -> bool {
    &&& forall|i: int, j: int|
        0 <= i < j < st.owners.len() ==> #[trigger] st.owners[i].0 != #[trigger] st.owners[j].0
    &&& forall|i: int, j: int|
        0 <= i < j < st.observers.len() ==> #[trigger] st.observers[i].0
            != #[trigger] st.observers[j].0
    &&& forall|i: int| 0 <= i < st.observers.len() ==> (#[trigger] st.observers[i]).1.no_duplicates()
}

proof fn lemma_find_named<T>(es: Seq<(Seq<char>, T)>, k: Seq<char>)
    ensures
        find_named(es, k) == -1 <==> forall|i: int| 0 <= i < es.len() ==> (#[trigger] es[i]).0 != k,
        find_named(es, k) != -1 ==> 0 <= find_named(es, k) < es.len() && es[find_named(es, k)].0
            == k,
    decreases es.len(),
{
    if es.len() > 0 {
        lemma_find_named(es.drop_last(), k);
        if es.last().0 != k {
            assert forall|i: int| 0 <= i < es.len() - 1 implies (#[trigger] es[i]).0 == es.drop_last()[i].0 by {}
        }
    }
}

proof fn lemma_without(s: Seq<usize>, x: usize)
    ensures
        forall|i: int| 0 <= i < without(s, x).len() ==> s.contains(#[trigger] without(s, x)[i]),
        !without(s, x).contains(x),
        s.no_duplicates() ==> without(s, x).no_duplicates(),
    decreases s.len(),
{
    if s.len() > 0 {
        let l = s.drop_last();
        lemma_without(l, x);
        let r = without(l, x);
        assert forall|i: int| 0 <= i < r.len() implies s.contains(#[trigger] r[i]) by {
            let k = choose|k: int| 0 <= k < l.len() && l[k] == r[i];
            assert(s[k] == l[k]);
        }
        if s.no_duplicates() {
            assert(l.no_duplicates());
            if s.last() != x {
                assert forall|i: int| 0 <= i < r.len() implies #[trigger] r[i] != s.last() by {
                    let k = choose|k: int| 0 <= k < l.len() && l[k] == r[i];
                    assert(s[k] == l[k]);
                }
                let w = r.push(s.last());
                assert forall|i: int, j: int| 0 <= i < j < w.len() implies w[i] != w[j] by {
                    if j == w.len() - 1 {
                        assert(w[i] == r[i]);
                    }
                }
            }
        }
        if s.last() != x {
            let w = r.push(s.last());
            assert forall|i: int| 0 <= i < w.len() implies w[i] != x by {
                if i < r.len() {
                    assert(w[i] == r[i]);
                }
            }
        }
    }
}

/// Every message keeps the routing well formed: no name is claimed or
/// observed twice, and no service observes an attribute twice.
pub proof fn lemma_route_keeps_wf(st: RoutingV, m: SwMessageV)
    requires
        routing_wf(st),
    ensures
        routing_wf(spec_route(st, m).0),
{
    let st2 = spec_route(st, m).0;
    match m {
        SwMessageV::AttrOwner { sender_id, name } => {
            lemma_find_named(st.owners, name);
            if find_named(st.owners, name) < 0 {
                assert forall|i: int, j: int|
                    0 <= i < j < st2.owners.len() implies #[trigger] st2.owners[i].0
                    != #[trigger] st2.owners[j].0 by {
                    if j == st.owners.len() {
                        assert(st.owners[i] == st2.owners[i]);
                    }
                }
            }
        },
        SwMessageV::ObserveAttr { sender_id, name } => {
            lemma_find_named(st.observers, name);
            let i0 = find_named(st.observers, name);
            if i0 >= 0 {
                let ids = st.observers[i0].1;
                if !ids.contains(sender_id) {
                    let w = ids.push(sender_id);
                    assert forall|a: int, b: int| 0 <= a < b < w.len() implies w[a] != w[b] by {
                        if b == ids.len() {
                            assert(w[a] == ids[a]);
                        }
                    }
                    assert forall|k: int| 0 <= k < st2.observers.len() implies (
                    #[trigger] st2.observers[k]).1.no_duplicates() by {
                        if k != i0 {
                            assert(st2.observers[k] == st.observers[k]);
                        }
                    }
                    assert forall|a: int, b: int|
                        0 <= a < b < st2.observers.len() implies #[trigger] st2.observers[a].0
                        != #[trigger] st2.observers[b].0 by {
                        assert(st2.observers[a].0 == st.observers[a].0);
                        assert(st2.observers[b].0 == st.observers[b].0);
                    }
                }
            } else {
                assert forall|a: int, b: int|
                    0 <= a < b < st2.observers.len() implies #[trigger] st2.observers[a].0
                    != #[trigger] st2.observers[b].0 by {
                    if b == st.observers.len() {
                        assert(st.observers[a] == st2.observers[a]);
                    }
                }
                assert forall|k: int| 0 <= k < st2.observers.len() implies (
                #[trigger] st2.observers[k]).1.no_duplicates() by {
                    if k < st.observers.len() {
                        assert(st2.observers[k] == st.observers[k]);
                    }
                }
            }
        },
        SwMessageV::UnobserveAttr { sender_id, name } => {
            lemma_find_named(st.observers, name);
            let i0 = find_named(st.observers, name);
            if i0 >= 0 {
                lemma_without(st.observers[i0].1, sender_id);
                assert forall|k: int| 0 <= k < st2.observers.len() implies (
                #[trigger] st2.observers[k]).1.no_duplicates() by {
                    if k != i0 {
                        assert(st2.observers[k] == st.observers[k]);
                    }
                }
                assert forall|a: int, b: int|
                    0 <= a < b < st2.observers.len() implies #[trigger] st2.observers[a].0
                    != #[trigger] st2.observers[b].0 by {
                    assert(st2.observers[a].0 == st.observers[a].0);
                    assert(st2.observers[b].0 == st.observers[b].0);
                }
            }
        },
        _ => {},
    }
}

/// A value is never sent back to the service it came from, goes only to
/// services that exist, goes on unchanged, and reaches no service twice;
/// routing a value changes no owner or observer.
pub proof fn lemma_route_value(st: RoutingV, sender_id: usize, name: Seq<char>, value: SwValueV)
    requires
        routing_wf(st),
    ensures
        ({
            let (st2, out) = spec_route(st, SwMessageV::DevAttr { sender_id, name, value });
            &&& st2 == st
            &&& forall|i: int|
                0 <= i < out.len() ==> {
                    let d = #[trigger] out[i];
                    &&& d.receiver_id < st.services
                    &&& (sender_id != 0 ==> d.receiver_id != sender_id)
                    &&& d.sender_id == sender_id
                    &&& d.name == name
                    &&& d.value == value
                }
            &&& forall|i: int, j: int|
                0 <= i < j < out.len() ==> (#[trigger] out[i]).receiver_id != (
                #[trigger] out[j]).receiver_id
        }),
{
    let every = observers_of(st.observers, "#"@);
    let named = observers_of(st.observers, name);
    let all = deliveries(every, Seq::empty(), st.services, sender_id, name, value);
    let own = deliveries(named, every, st.services, sender_id, name, value);
    lemma_find_named(st.observers, "#"@);
    lemma_find_named(st.observers, name);
    lemma_deliveries_skip_sender(every, Seq::empty(), st.services, sender_id, name, value);
    lemma_deliveries_skip_sender(named, every, st.services, sender_id, name, value);
    let (st2, out) = spec_route(st, SwMessageV::DevAttr { sender_id, name, value });
    assert forall|i: int| 0 <= i < out.len() implies {
        let d = #[trigger] out[i];
        &&& d.receiver_id < st.services
        &&& (sender_id != 0 ==> d.receiver_id != sender_id)
        &&& d.sender_id == sender_id
        &&& d.name == name
        &&& d.value == value
    } by {
        if out != all + own {
            assert(out.len() == 1);
        } else if i < all.len() {
            assert(out[i] == all[i]);
        } else {
            assert(out[i] == own[i - all.len()]);
        }
    }
    if out == all + own {
        assert forall|i: int, j: int| 0 <= i < j < out.len() implies (#[trigger] out[i]).receiver_id
            != (#[trigger] out[j]).receiver_id by {
            if j < all.len() {
                assert(out[i] == all[i] && out[j] == all[j]);
            } else if i >= all.len() {
                assert(out[i] == own[i - all.len()] && out[j] == own[j - all.len()]);
            } else {
                assert(out[i] == all[i] && out[j] == own[j - all.len()]);
                assert(every.contains(all[i].receiver_id));
            }
        }
    }
}

} // verus!
