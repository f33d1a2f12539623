//! What a configured device does with what reaches it: data it received is
//! read into its attributes by its group's read expressions, and a value set
//! on one of its attributes goes through the group's write expression, or is
//! kept and passed on where there is none.

use vstd::prelude::*;
use vstd::string::StringExecFns;
use crate::http::{chars_of, string_of};
use crate::switcher::eval::{
    SwValue, SwValueV, SwEvaluator, SwEvalCtx, EvalDev, CtxV, spec_eval, lookup, pairs_view,
    opt_pairs, lookup_value, same_value,
};

verus! {

/// A device: its id, the id it sends messages under, whether values read
/// are passed on only where they changed (polled devices), its constants,
/// the read and write expressions of its group by attribute, and the values
/// of its attributes.
pub struct DeviceState {
    pub id: String,
    pub sender_id: usize,
    pub check_dup: bool,
    pub consts: Option<Vec<(String, SwValue)>>,
    pub read: Vec<(String, SwEvaluator)>,
    pub write: Vec<(String, SwEvaluator)>,
    pub vals: Vec<(String, SwValue)>,
}

/// The model of a device.
pub struct DeviceV {
    pub id: Seq<char>,
    pub sender_id: usize,
    pub check_dup: bool,
    pub consts: Option<Seq<(Seq<char>, SwValueV)>>,
    pub read: Seq<(Seq<char>, SwEvaluator)>,
    pub write: Seq<(Seq<char>, SwEvaluator)>,
    pub vals: Seq<(Seq<char>, SwValueV)>,
}

/// The model of expressions by name.
pub open spec fn exprs_view(v: Vec<(String, SwEvaluator)>) -> Seq<(Seq<char>, SwEvaluator)> {
    v@.map_values(|p: (String, SwEvaluator)| (p.0@, p.1))
}

impl View for DeviceState {
    type V = DeviceV;

    open spec fn view(&self) -> DeviceV {
        DeviceV {
            id: self.id@,
            sender_id: self.sender_id,
            check_dup: self.check_dup,
            consts: opt_pairs(self.consts),
            read: exprs_view(self.read),
            write: exprs_view(self.write),
            vals: pairs_view(self.vals),
        }
    }
}

/// What reaches a device: data (as text, with the MQTT topic it came on,
/// if any), or a value set on an attribute (`device.attribute`); each with
/// the time.
pub enum DeviceEvent {
    Data { data: String, topic: Option<String>, now: i32 },
    SetAttr { name: String, value: SwValue, now: i32 },
}

/// The model of an optional string.
pub open spec fn opt_text(o: Option<String>) -> Option<Seq<char>> {
    match o {
        Some(t) => Some(t@),
        None => None,
    }
}

/// The model of an event.
pub enum DeviceEventV {
    Data { data: Seq<char>, topic: Option<Seq<char>>, now: i32 },
    SetAttr { name: Seq<char>, value: SwValueV, now: i32 },
}

impl View for DeviceEvent {
    type V = DeviceEventV;

    open spec fn view(&self) -> DeviceEventV {
        match self {
            DeviceEvent::Data { data, topic, now } => DeviceEventV::Data {
                data: data@,
                topic: opt_text(*topic),
                now: *now,
            },
            DeviceEvent::SetAttr { name, value, now } => DeviceEventV::SetAttr {
                name: name@,
                value: value@,
                now: *now,
            },
        }
    }
}

/// A value a device sends on: from which sender, for which attribute.
pub struct DeviceAction {
    pub sender_id: usize,
    pub name: String,
    pub value: SwValue,
}

/// The model of an action.
pub struct ActionV {
    pub sender_id: usize,
    pub name: Seq<char>,
    pub value: SwValueV,
}

impl View for DeviceAction {
    type V = ActionV;

    open spec fn view(&self) -> ActionV {
        ActionV { sender_id: self.sender_id, name: self.name@, value: self.value@ }
    }
}

/// The values with `k` set to `v`: where `k` has a value, its first entry
/// takes the new one; else it is added at the end.
pub open spec fn insert_val(vals: Seq<(Seq<char>, SwValueV)>, k: Seq<char>, v: SwValueV) -> Seq<
    (Seq<char>, SwValueV),
>
    decreases vals.len(),
{
    if vals.len() == 0 {
        seq![(k, v)]
    } else if vals[0].0 == k {
        vals.update(0, (k, v))
    } else {
        seq![vals[0]] + insert_val(vals.drop_first(), k, v)
    }
}

/// The first expression given for a name.
pub open spec fn find_expr(es: Seq<(Seq<char>, SwEvaluator)>, k: Seq<char>) -> Option<SwEvaluator>
    decreases es.len(),
{
    if es.len() == 0 {
        None
    } else if es[0].0 == k {
        Some(es[0].1)
    } else {
        find_expr(es.drop_first(), k)
    }
}

/// The context a read expression is evaluated in: the data, its topic, the
/// device's constants and values, and the time.
pub open spec fn read_ctx(
    vals: Seq<(Seq<char>, SwValueV)>,
    data: Seq<char>,
    topic: Option<Seq<char>>,
    consts: Option<Seq<(Seq<char>, SwValueV)>>,
    now: i32,
) -> CtxV {
    CtxV {
        val: None,
        vals: Some(vals),
        vals_prefix: None,
        data: Some(data),
        topic,
        dev: Some(consts),
        msgs: None,
        now,
    }
}

/// Reading data with the first read expressions, in turn: each that gives
/// a value other than nothing (nothing skips the attribute; so does an
/// error) sets its attribute, and the value goes on as `id.attribute`,
/// from a polled device only where it changed.
pub open spec fn read_all(
    st: DeviceV,
    reads: Seq<(Seq<char>, SwEvaluator)>,
    data: Seq<char>,
    topic: Option<Seq<char>>,
    now: i32,
) -> (Seq<(Seq<char>, SwValueV)>, Seq<ActionV>)
    decreases reads.len(),
{
    if reads.len() == 0 {
        (st.vals, Seq::empty())
    } else {
        let (vals, acts) = read_all(st, reads.drop_last(), data, topic, now);
        let (name, e) = reads.last();
        match spec_eval(e, read_ctx(vals, data, topic, st.consts, now)).0 {
            Ok(v) => if v == SwValueV::Empty {
                (vals, acts)
            } else {
                let changed = !st.check_dup || lookup(vals, name) != Some(v);
                (
                    insert_val(vals, name, v),
                    if changed {
                        acts.push(ActionV { sender_id: st.sender_id, name: st.id + "."@ + name, value: v })
                    } else {
                        acts
                    },
                )
            },
            Err(_) => (vals, acts),
        }
    }
}

/// The messages a write expression left, as values sent on from outside
/// the devices (sender 0).
pub open spec fn msgs_actions(m: Option<Seq<(Seq<char>, SwValueV)>>) -> Seq<ActionV> {
    match m {
        Some(ms) => ms.map_values(|p: (Seq<char>, SwValueV)| ActionV { sender_id: 0, name: p.0, value: p.1 }),
        None => Seq::empty(),
    }
}

/// A device after an event, and the values it sends on. Data is read by
/// all read expressions (`read_all`). A value set on `id.attribute` goes
/// to the attribute's write expression, evaluated with the value as the
/// current value and the device's values and constants; the values that
/// expression sets go on. Without a write expression the value is kept and
/// goes on from the device. A name no longer than the device's id and a
/// dot changes nothing.
pub open spec fn spec_device_step(st: DeviceV, ev: DeviceEventV) -> (DeviceV, Seq<ActionV>) {
    match ev {
        DeviceEventV::Data { data, topic, now } => {
            let (vals, acts) = read_all(st, st.read, data, topic, now);
            (DeviceV { vals, ..st }, acts)
        },
        DeviceEventV::SetAttr { name, value, now } => if name.len() > st.id.len() + 1 {
            let a = name.skip((st.id.len() + 1) as int);
            match find_expr(st.write, a) {
                Some(e) => {
                    let ctx = CtxV {
                        val: Some(value),
                        vals: Some(st.vals),
                        vals_prefix: None,
                        data: None,
                        topic: None,
                        dev: Some(st.consts),
                        msgs: Some(Seq::empty()),
                        now,
                    };
                    (st, msgs_actions(spec_eval(e, ctx).1.msgs))
                },
                None => (
                    DeviceV { vals: insert_val(st.vals, a, value), ..st },
                    seq![ActionV { sender_id: st.sender_id, name, value }],
                ),
            }
        } else {
            (st, Seq::empty())
        },
    }
}

/// A copy of named values.
fn copy_pairs(v: &Vec<(String, SwValue)>) -> (r: Vec<(String, SwValue)>)
    ensures
        pairs_view(r) == pairs_view(*v),
{
    let mut r: Vec<(String, SwValue)> = Vec::new();
    let mut i: usize = 0;
    while i < v.len()
        invariant
            i <= v@.len(),
            pairs_view(r) == pairs_view(*v).take(i as int),
        decreases v@.len() - i,
    {
        let ghost before = pairs_view(r);
        r.push((v[i].0.clone(), v[i].1.copy()));
        i += 1;
        proof {
            assert(pairs_view(r) =~= before.push(pairs_view(*v)[i - 1]));
            assert(pairs_view(*v).take(i as int) =~= pairs_view(*v).take(i - 1).push(
                pairs_view(*v)[i - 1],
            ));
        }
    }
    proof {
        assert(pairs_view(*v).take(v@.len() as int) =~= pairs_view(*v));
    }
    r
}

/// A copy of optional named values.
fn copy_opt_pairs(o: &Option<Vec<(String, SwValue)>>) -> (r: Option<Vec<(String, SwValue)>>)
    ensures
        opt_pairs(r) == opt_pairs(*o),
{
    match o {
        Some(v) => Some(copy_pairs(v)),
        None => None,
    }
}

/// Where `insert_val` puts a value: into the first entry of its name, past
/// `i` entries of other names.
proof fn lemma_insert_val_skip(vals: Seq<(Seq<char>, SwValueV)>, k: Seq<char>, v: SwValueV, i: int)
    requires
        0 <= i <= vals.len(),
        forall|j: int| 0 <= j < i ==> vals[j].0 != k,
    ensures
        insert_val(vals, k, v) == vals.take(i) + insert_val(vals.skip(i), k, v),
    decreases i,
{
    if i == 0 {
        assert(vals.skip(0) =~= vals);
        assert(vals.take(0) + vals =~= vals);
    } else {
        let t = vals.drop_first();
        assert forall|j: int| 0 <= j < i - 1 implies t[j].0 != k by {
            assert(t[j] == vals[j + 1]);
        }
        lemma_insert_val_skip(t, k, v, i - 1);
        assert(vals[0].0 != k);
        assert(t.skip(i - 1) =~= vals.skip(i));
        assert(seq![vals[0]] + t.take(i - 1) =~= vals.take(i));
        assert(seq![vals[0]] + (t.take(i - 1) + insert_val(vals.skip(i), k, v)) =~= vals.take(i)
            + insert_val(vals.skip(i), k, v));
    }
}

/// Sets a value, as `insert_val` says.
fn set_val(vals: &mut Vec<(String, SwValue)>, k: String, v: SwValue)
    ensures
        pairs_view(*final(vals)) == insert_val(pairs_view(*old(vals)), k@, v@),
{
    let ghost all = pairs_view(*vals);
    let mut i: usize = 0;
    while i < vals.len()
        invariant
            i <= vals@.len(),
            all == pairs_view(*vals),
            all == pairs_view(*old(vals)),
            forall|j: int| 0 <= j < i ==> all[j].0 != k@,
        decreases vals@.len() - i,
    {
        if vals[i].0 == k {
            proof {
                lemma_insert_val_skip(all, k@, v@, i as int);
                assert(all.skip(i as int)[0].0 == k@);
                assert(all.skip(i as int).len() > 0);
                assert(insert_val(all.skip(i as int), k@, v@) == all.skip(i as int).update(
                    0,
                    (k@, v@),
                ));
                assert(all.take(i as int) + all.skip(i as int).update(0, (k@, v@)) =~= all.update(
                    i as int,
                    (k@, v@),
                ));
            }
            let ghost kv = (k@, v@);
            vals.set(i, (k, v));
            proof {
                assert(pairs_view(*vals) =~= all.update(i as int, kv));
                assert(insert_val(all, k@, v@) == all.update(i as int, kv));
            }
            return;
        }
        i += 1;
    }
    proof {
        lemma_insert_val_skip(all, k@, v@, all.len() as int);
        assert(all.skip(all.len() as int) =~= Seq::<(Seq<char>, SwValueV)>::empty());
        assert(all.take(all.len() as int) =~= all);
    }
    let ghost kv = (k@, v@);
    vals.push((k, v));
    proof {
        assert(pairs_view(*vals) =~= all.push(kv));
        assert(all + seq![kv] =~= all.push(kv));
    }
}

/// The index of the first expression given for a name, as `find_expr`
/// says.
fn find_write(es: &Vec<(String, SwEvaluator)>, k: &String) -> (r: Option<usize>)
    ensures
        match find_expr(exprs_view(*es), k@) {
            Some(e) => r matches Some(i) && i < es@.len() && es@[i as int].1 == e,
            None => r is None,
        },
{
    let ghost all = exprs_view(*es);
    let mut i: usize = 0;
    proof {
        assert(all.skip(0) =~= all);
    }
    while i < es.len()
        invariant
            i <= es@.len(),
            all == exprs_view(*es),
            find_expr(all, k@) == find_expr(all.skip(i as int), k@),
        decreases es@.len() - i,
    {
        proof {
            assert(all.skip(i as int).drop_first() =~= all.skip(i + 1));
            assert(all.skip(i as int)[0] == all[i as int]);
        }
        if es[i].0 == *k {
            return Some(i);
        }
        i += 1;
    }
    None
}

/// Reads data into the device's attributes, as `spec_device_step` says.
fn read_data(st: &mut DeviceState, data: String, topic: Option<String>, now: i32) -> (acts: Vec<
    DeviceAction,
>)
    ensures
        (final(st)@, acts@.map_values(|a: DeviceAction| a@)) == spec_device_step(
            old(st)@,
            (DeviceEventV::Data { data: data@, topic: opt_text(topic), now }),
        ),
{
    let ghost st0 = st@;
    let mut acts: Vec<DeviceAction> = Vec::new();
    let ghost tv = opt_text(topic);
    let mut i: usize = 0;
    proof {
        assert(st0.read.take(0) =~= Seq::<(Seq<char>, SwEvaluator)>::empty());
        assert(acts@.map_values(|a: DeviceAction| a@) =~= Seq::<ActionV>::empty());
    }
    while i < st.read.len()
        invariant
            i <= st.read@.len(),
            st@ == (DeviceV { vals: st@.vals, ..st0 }),
            (st@.vals, acts@.map_values(|a: DeviceAction| a@)) == read_all(
                st0,
                st0.read.take(i as int),
                data@,
                tv,
                now,
            ),
            tv == opt_text(topic),
        decreases st.read@.len() - i,
    {
        proof {
            assert(st0.read.take(i + 1).drop_last() =~= st0.read.take(i as int));
            assert(st0.read.take(i + 1).last() == st0.read[i as int]);
        }
        let t = match &topic {
            Some(t) => Some(t.clone()),
            None => None,
        };
        let mut ctx = SwEvalCtx {
            val: None,
            vals: Some(copy_pairs(&st.vals)),
            vals_prefix: None,
            data: Some(data.clone()),
            topic: t,
            dev: Some(EvalDev { consts: copy_opt_pairs(&st.consts) }),
            msgs: None,
            now,
        };
        proof {
            assert(ctx@ == read_ctx(st@.vals, data@, tv, st0.consts, now));
        }
        let ghost acts0 = acts@.map_values(|a: DeviceAction| a@);
        let r = st.read[i].1.eval(&mut ctx);
        match r {
            Ok(v) => {
                let empty = match v {
                    SwValue::Empty => true,
                    _ => false,
                };
                if !empty {
                    let name = st.read[i].0.clone();
                    let changed = !st.check_dup || match lookup_value(
                        &st.vals,
                        name.as_str(),
                    ) {
                        Some(old) => !same_value(&old, &v),
                        None => true,
                    };
                    if changed {
                        let mut full = st.id.clone();
                        full.append(".");
                        full.append(name.as_str());
                        proof {
                            reveal_strlit(".");
                        }
                        let a = DeviceAction { sender_id: st.sender_id, name: full, value: v.copy() };
                        let ghost av = a@;
                        acts.push(a);
                        proof {
                            assert(acts@.map_values(|a: DeviceAction| a@) =~= acts0.push(av));
                        }
                    }
                    set_val(&mut st.vals, name, v);
                }
            },
            Err(_) => {},
        }
        i += 1;
    }
    proof {
        assert(st0.read.take(st0.read.len() as int) =~= st0.read);
    }
    acts
}

/// Sets a value on an attribute of the device, as `spec_device_step` says.
fn set_attr(st: &mut DeviceState, name: String, value: SwValue, now: i32) -> (acts: Vec<
    DeviceAction,
>)
    ensures
        (final(st)@, acts@.map_values(|a: DeviceAction| a@)) == spec_device_step(
            old(st)@,
            (DeviceEventV::SetAttr { name: name@, value: value@, now }),
        ),
{
    let ghost st0 = st@;
    let mut acts: Vec<DeviceAction> = Vec::new();
    let cs = chars_of(name.as_str());
    let idn = st.id.as_str().unicode_len();
    if idn < cs.len() && cs.len() - idn > 1 {
        let a = string_of(&cs.as_slice()[idn + 1..cs.len()]);
        proof {
            assert(a@ =~= name@.skip((st0.id.len() + 1) as int));
        }
        match find_write(&st.write, &a) {
            Some(wi) => {
                let mut ctx = SwEvalCtx {
                    val: Some(value),
                    vals: Some(copy_pairs(&st.vals)),
                    vals_prefix: None,
                    data: None,
                    topic: None,
                    dev: Some(EvalDev { consts: copy_opt_pairs(&st.consts) }),
                    msgs: Some(Vec::new()),
                    now,
                };
                proof {
                    assert(pairs_view(ctx.msgs->Some_0) =~= Seq::<(Seq<char>, SwValueV)>::empty());
                }
                let _ = st.write[wi].1.eval(&mut ctx);
                match ctx.msgs {
                    Some(ms) => {
                        let ghost mv = pairs_view(ms);
                        let mut k: usize = 0;
                        let mut ms = ms;
                        let mut rest: Vec<DeviceAction> = Vec::new();
                        proof {
                            assert(rest@.map_values(|a: DeviceAction| a@) =~= msgs_actions(Some(mv)).take(0));
                        }
                        while k < ms.len()
                            invariant
                                k <= ms@.len(),
                                mv == pairs_view(ms),
                                rest@.map_values(|a: DeviceAction| a@) == msgs_actions(
                                    Some(mv),
                                ).take(k as int),
                            decreases ms@.len() - k,
                        {
                            let ghost before = rest@.map_values(|a: DeviceAction| a@);
                            let a = DeviceAction {
                                sender_id: 0,
                                name: ms[k].0.clone(),
                                value: ms[k].1.copy(),
                            };
                            let ghost av = a@;
                            rest.push(a);
                            k += 1;
                            proof {
                                assert(rest@.map_values(|a: DeviceAction| a@) =~= before.push(av));
                                assert(msgs_actions(Some(mv)).take(k as int) =~= msgs_actions(
                                    Some(mv),
                                ).take(k - 1).push(av));
                            }
                        }
                        proof {
                            assert(msgs_actions(Some(mv)).take(ms@.len() as int) =~= msgs_actions(
                                Some(mv),
                            ));
                        }
                        rest
                    },
                    None => {
                        proof {
                            assert(acts@.map_values(|a: DeviceAction| a@) =~= msgs_actions(None));
                        }
                        acts
                    },
                }
            },
            None => {
                let value2 = value.copy();
                set_val(&mut st.vals, a, value);
                let d = DeviceAction { sender_id: st.sender_id, name, value: value2 };
                let ghost dv = d@;
                acts.push(d);
                proof {
                    assert(acts@.map_values(|a: DeviceAction| a@) =~= seq![dv]);
                }
                acts
            },
        }
    } else {
        proof {
            assert(acts@.map_values(|a: DeviceAction| a@) =~= Seq::<ActionV>::empty());
        }
        acts
    }
}

/// What a device does with an event, as `spec_device_step` says.
pub fn device_step(st: &mut DeviceState, ev: DeviceEvent) -> (acts: Vec<DeviceAction>)
    ensures
        (final(st)@, acts@.map_values(|a: DeviceAction| a@)) == spec_device_step(old(st)@, ev@),
{
    match ev {
        DeviceEvent::Data { data, topic, now } => read_data(st, data, topic, now),
        DeviceEvent::SetAttr { name, value, now } => set_attr(st, name, value, now),
    }
}

} // verus!
