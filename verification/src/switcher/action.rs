//! Automations: an action observes the attributes its expressions read,
//! and when one of those read by its condition changes, it evaluates the
//! condition and, where it holds, its body, which may set values.

use vstd::prelude::*;
use crate::switcher::eval::{
    as_bool, pairs_view, spec_eval, to_bool, CtxV, EvalError, SwEvalCtx, SwEvaluator,
    SwValue, SwValueV, is_unary_op, ExprList,
};
use crate::switcher::routing::{find_named, SwMessage, SwMessageV};

verus! {

/// An action: its condition (`on`, none for always), its body (`do`), the
/// values it has seen, the attributes it observes with whether a change of
/// one evaluates the condition, the device it belongs to (its id is the
/// prefix of the names it reads), and its service id.
pub struct ActionState {
    pub on: Option<SwEvaluator>,
    pub tdo: SwEvaluator,
    pub vals: Vec<(String, SwValue)>,
    pub obs: Vec<(String, bool)>,
    pub dev_prefix: Option<String>,
    pub sender_id: usize,
}

/// The model of an action.
pub struct ActionStateV {
    pub on: Option<SwEvaluator>,
    pub tdo: SwEvaluator,
    pub vals: Seq<(Seq<char>, SwValueV)>,
    pub obs: Seq<(Seq<char>, bool)>,
    pub dev_prefix: Option<Seq<char>>,
    pub sender_id: usize,
}

impl View for ActionState {
    type V = ActionStateV;

    open spec fn view(&self) -> ActionStateV {
        ActionStateV {
            on: self.on,
            tdo: self.tdo,
            vals: pairs_view(self.vals),
            obs: self.obs@.map_values(|o: (String, bool)| (o.0@, o.1)),
            dev_prefix: match self.dev_prefix {
                Some(p) => Some(p@),
                None => None,
            },
            sender_id: self.sender_id,
        }
    }
}

/// A context with nothing in it but the time.
pub open spec fn bare_ctx(now: i32) -> CtxV {
    CtxV {
        val: None,
        vals: None,
        vals_prefix: None,
        data: None,
        topic: None,
        dev: None,
        msgs: None,
        now,
    }
}

/// The attribute an action of a device reads under `s`: a name without a
/// dot is one of the device's own.
pub open spec fn attr_name(prefix: Option<Seq<char>>, s: Seq<char>) -> Seq<char> {
    match prefix {
        Some(p) => if s.contains('.') {
            s
        } else {
            p + "."@ + s
        },
        None => s,
    }
}

/// The attributes an expression reads, outermost first: each `val(name)`
/// whose name evaluates (in a bare context) to a string.
pub open spec fn observed_in(e: SwEvaluator, prefix: Option<Seq<char>>, now: i32) -> Seq<Seq<char>>
    decreases e,
{
    let own = match e {
        SwEvaluator::Val { n, a1, .. } => if n == 1 {
            match spec_eval(*a1, bare_ctx(now)).0 {
                Ok(SwValueV::Str(s)) => seq![attr_name(prefix, s)],
                _ => Seq::empty(),
            }
        } else {
            Seq::empty()
        },
        _ => Seq::empty(),
    };
    own + match e {
        SwEvaluator::Std { op, a1, a2 } => if is_unary_op(op) {
            observed_in(*a1, prefix, now)
        } else {
            observed_in(*a1, prefix, now) + observed_in(*a2, prefix, now)
        },
        SwEvaluator::Semicolon { a1, a2 } => observed_in(*a1, prefix, now) + observed_in(
            *a2,
            prefix,
            now,
        ),
        SwEvaluator::If { a1, a2, a3, .. } => observed_in(*a1, prefix, now) + observed_in(
            *a2,
            prefix,
            now,
        ) + observed_in(*a3, prefix, now),
        SwEvaluator::Val { a1, a2, .. } => observed_in(*a1, prefix, now) + observed_in(
            *a2,
            prefix,
            now,
        ),
        SwEvaluator::Const { a } => observed_in(*a, prefix, now),
        SwEvaluator::ParseNum { a } => observed_in(*a, prefix, now),
        SwEvaluator::Hexdec { a } => observed_in(*a, prefix, now),
        SwEvaluator::Base64 { a } => observed_in(*a, prefix, now),
        SwEvaluator::DecodeHex { a } => observed_in(*a, prefix, now),
        SwEvaluator::In { a, args, .. } => observed_in(*a, prefix, now) + observed_list(
            *args,
            prefix,
            now,
        ),
        SwEvaluator::Substr { a1, a2, a3, .. } => observed_in(*a1, prefix, now) + observed_in(
            *a2,
            prefix,
            now,
        ) + observed_in(*a3, prefix, now),
        SwEvaluator::Lpad { a1, a2, a3 } => observed_in(*a1, prefix, now) + observed_in(
            *a2,
            prefix,
            now,
        ) + observed_in(*a3, prefix, now),
        SwEvaluator::Dechex { a1, a2 } => observed_in(*a1, prefix, now) + observed_in(
            *a2,
            prefix,
            now,
        ),
        SwEvaluator::Strpos { a1, a2 } => observed_in(*a1, prefix, now) + observed_in(
            *a2,
            prefix,
            now,
        ),
        SwEvaluator::Duration { a1, a2, .. } => observed_in(*a1, prefix, now) + observed_in(
            *a2,
            prefix,
            now,
        ),
        SwEvaluator::Scale { a1, a2, a3, a4, a5 } => observed_in(*a1, prefix, now) + observed_in(
            *a2,
            prefix,
            now,
        ) + observed_in(*a3, prefix, now) + observed_in(*a4, prefix, now) + observed_in(
            *a5,
            prefix,
            now,
        ),
        _ => Seq::empty(),
    }
}

/// The attributes the expressions of a list read, in order.
pub open spec fn observed_list(l: ExprList, prefix: Option<Seq<char>>, now: i32) -> Seq<Seq<char>>
    decreases l,
{
    match l {
        ExprList::Nil => Seq::empty(),
        ExprList::Cons(x, rest) => observed_in(*x, prefix, now) + observed_list(*rest, prefix, now),
    }
}

/// The observations after the names `ns` are added, each with the flag
/// `b`, unless already there.
pub open spec fn add_observed(obs: Seq<(Seq<char>, bool)>, ns: Seq<Seq<char>>, b: bool) -> Seq<
    (Seq<char>, bool),
>
    decreases ns.len(),
{
    if ns.len() == 0 {
        obs
    } else {
        let o = add_observed(obs, ns.drop_last(), b);
        if find_named(o, ns.last()) >= 0 {
            o
        } else {
            o.push((ns.last(), b))
        }
    }
}

/// What an action observes: the attributes its condition reads (a change
/// of one evaluates it), then those only its body reads.
pub open spec fn spec_action_obs(
    on: Option<SwEvaluator>,
    tdo: SwEvaluator,
    prefix: Option<Seq<char>>,
    now: i32,
) -> Seq<(Seq<char>, bool)> {
    let first = match on {
        Some(w) => add_observed(Seq::empty(), observed_in(w, prefix, now), true),
        None => Seq::empty(),
    };
    add_observed(first, observed_in(tdo, prefix, now), on is None)
}

/// The messages by which an action starts observing its attributes.
pub open spec fn observe_msgs(sender_id: usize, obs: Seq<(Seq<char>, bool)>) -> Seq<SwMessageV> {
    obs.map_values(|o: (Seq<char>, bool)| SwMessageV::ObserveAttr { sender_id, name: o.0 })
}

/// The values after `name` is set to `value`.
pub open spec fn set_value(vals: Seq<(Seq<char>, SwValueV)>, name: Seq<char>, value: SwValueV) -> Seq<
    (Seq<char>, SwValueV),
> {
    let i = find_named(vals, name);
    if i >= 0 {
        vals.update(i, (name, value))
    } else {
        vals.push((name, value))
    }
}

/// Whether a condition holds after its evaluation: only a value that reads
/// as `true` does.
pub open spec fn holds(r: Result<SwValueV, EvalError>) -> bool {
    match r {
        Ok(v) => match as_bool(v) {
            Ok(b) => b,
            Err(_) => false,
        },
        Err(_) => false,
    }
}

/// The messages an action sends for the values its evaluation set: each as
/// a value from outside the devices.
pub open spec fn set_msgs(m: Seq<(Seq<char>, SwValueV)>) -> Seq<SwMessageV> {
    m.map_values(|p: (Seq<char>, SwValueV)| SwMessageV::DevAttr { sender_id: 0, name: p.0, value: p.1 })
}

/// An action after a message, and the messages it sends. A value it
/// observes is remembered; where the attribute is one its condition reads,
/// the condition is evaluated over the values seen (a failing evaluation
/// does not hold) and, where it holds, the body, whose set values are sent.
/// Other messages change nothing.
pub open spec fn spec_action_step(st: ActionStateV, m: SwMessageV, now: i32) -> (
    ActionStateV,
    Seq<SwMessageV>,
) {
    match m {
        SwMessageV::DevAttr { name, value, .. } => {
            let vals1 = set_value(st.vals, name, value);
            let ctx0 = CtxV {
                val: None,
                vals: Some(vals1),
                vals_prefix: st.dev_prefix,
                data: None,
                topic: None,
                dev: None,
                msgs: Some(Seq::empty()),
                now,
            };
            let i = find_named(st.obs, name);
            let ctx2 = if i >= 0 && st.obs[i].1 {
                let (go, ctx1) = match st.on {
                    None => (true, ctx0),
                    Some(w) => {
                        let (r, c) = spec_eval(w, ctx0);
                        (holds(r), c)
                    },
                };
                if go {
                    spec_eval(st.tdo, ctx1).1
                } else {
                    ctx1
                }
            } else {
                ctx0
            };
            match ctx2.vals {
                Some(v) => (
                    ActionStateV { vals: v, ..st },
                    set_msgs(
                        match ctx2.msgs {
                            Some(ms) => ms,
                            None => Seq::empty(),
                        },
                    ),
                ),
                None => (ActionStateV { vals: Seq::empty(), ..st }, Seq::empty()),
            }
        },
        _ => (st, Seq::empty()),
    }
}

/// Whether a string holds a dot.
fn has_dot(s: &String) -> (r: bool)
    ensures
        r == s@.contains('.'),
{
    let cs = crate::http::chars_of(s.as_str());
    let mut i: usize = 0;
    while i < cs.len()
        invariant
            i <= cs@.len(),
            cs@ == s@,
            forall|j: int| 0 <= j < i ==> cs@[j] != '.',
        decreases cs@.len() - i,
    {
        if cs[i] == '.' {
            return true;
        }
        i += 1;
    }
    false
}

/// The attribute read under `s`, as `attr_name` says.
fn full_attr_name(prefix: &Option<String>, s: String) -> (r: String)
    ensures
        r@ == attr_name(
            match *prefix {
                Some(p) => Some(p@),
                None => None,
            },
            s@,
        ),
{
    match prefix {
        Some(p) => {
            if has_dot(&s) {
                s
            } else {
                let mut r = p.clone();
                proof {
                    reveal_strlit(".");
                }
                r.append(".");
                r.append(s.as_str());
                r
            }
        },
        None => s,
    }
}

/// The index of the entry named `k`, as `find_named` says.
fn find_obs(es: &Vec<(String, bool)>, k: &String) -> (r: Option<usize>)
    ensures
        match r {
            Some(i) => i < es@.len() && i as int == find_named(
                es@.map_values(|o: (String, bool)| (o.0@, o.1)),
                k@,
            ),
            None => find_named(es@.map_values(|o: (String, bool)| (o.0@, o.1)), k@) == -1,
        },
{
    let ghost v = es@.map_values(|o: (String, bool)| (o.0@, o.1));
    let mut j: usize = es.len();
    proof {
        assert(v.take(j as int) =~= v);
    }
    while j > 0
        invariant
            j <= es@.len(),
            v == es@.map_values(|o: (String, bool)| (o.0@, o.1)),
            find_named(v, k@) == find_named(v.take(j as int), k@),
        decreases j,
    {
        proof {
            assert(v.take(j as int).drop_last() =~= v.take(j - 1));
            assert(v.take(j as int).last() == v[j - 1]);
        }
        if es[j - 1].0 == *k {
            return Some(j - 1);
        }
        j -= 1;
    }
    proof {
        assert(v.take(0) =~= Seq::<(Seq<char>, bool)>::empty());
    }
    None
}

/// The index of the value named `k`, as `find_named` says.
fn find_val(es: &Vec<(String, SwValue)>, k: &String) -> (r: Option<usize>)
    ensures
        match r {
            Some(i) => i < es@.len() && i as int == find_named(pairs_view(*es), k@),
            None => find_named(pairs_view(*es), k@) == -1,
        },
{
    let ghost v = pairs_view(*es);
    let mut j: usize = es.len();
    proof {
        assert(v.take(j as int) =~= v);
    }
    while j > 0
        invariant
            j <= es@.len(),
            v == pairs_view(*es),
            find_named(v, k@) == find_named(v.take(j as int), k@),
        decreases j,
    {
        proof {
            assert(v.take(j as int).drop_last() =~= v.take(j - 1));
            assert(v.take(j as int).last() == v[j - 1]);
        }
        if es[j - 1].0 == *k {
            return Some(j - 1);
        }
        j -= 1;
    }
    proof {
        assert(v.take(0) =~= Seq::<(Seq<char>, SwValueV)>::empty());
    }
    None
}

/// Adds a name with its flag unless it is there, as one step of
/// `add_observed` says.
fn add_obs(obs: &mut Vec<(String, bool)>, name: String, b: bool)
    ensures
        ({
            let o = old(obs)@.map_values(|o: (String, bool)| (o.0@, o.1));
            final(obs)@.map_values(|o: (String, bool)| (o.0@, o.1)) == if find_named(o, name@) >= 0 {
                o
            } else {
                o.push((name@, b))
            }
        }),
{
    match find_obs(obs, &name) {
        Some(_) => {},
        None => {
            let ghost o = obs@.map_values(|o: (String, bool)| (o.0@, o.1));
            let ghost nv = name@;
            obs.push((name, b));
            proof {
                assert(obs@.map_values(|o: (String, bool)| (o.0@, o.1)) =~= o.push((nv, b)));
            }
        },
    }
}

/// Adding two lists of names is adding the first, then the second.
proof fn lemma_add_observed_concat(
    obs: Seq<(Seq<char>, bool)>,
    x: Seq<Seq<char>>,
    y: Seq<Seq<char>>,
    b: bool,
)
    ensures
        add_observed(obs, x + y, b) == add_observed(add_observed(obs, x, b), y, b),
    decreases y.len(),
{
    if y.len() == 0 {
        assert(x + y =~= x);
    } else {
        lemma_add_observed_concat(obs, x, y.drop_last(), b);
        assert((x + y).drop_last() =~= x + y.drop_last());
        assert((x + y).last() == y.last());
    }
}

/// The model of an optional prefix.
pub open spec fn opt_text(p: Option<String>) -> Option<Seq<char>> {
    match p {
        Some(t) => Some(t@),
        None => None,
    }
}

/// The model of a list of observations.
pub open spec fn obs_view(v: Vec<(String, bool)>) -> Seq<(Seq<char>, bool)> {
    v@.map_values(|o: (String, bool)| (o.0@, o.1))
}

/// The names an expression itself reads, not counting its operands.
pub open spec fn own_observed(e: SwEvaluator, prefix: Option<Seq<char>>, now: i32) -> Seq<Seq<char>> {
    match e {
        SwEvaluator::Val { n, a1, .. } => if n == 1 {
            match spec_eval(*a1, bare_ctx(now)).0 {
                Ok(SwValueV::Str(s)) => seq![attr_name(prefix, s)],
                _ => Seq::empty(),
            }
        } else {
            Seq::empty()
        },
        _ => Seq::empty(),
    }
}

/// Adds the name an expression itself reads, as `own_observed` says.
fn collect_own(e: &SwEvaluator, prefix: &Option<String>, now: i32, b: bool, obs: &mut Vec<(String, bool)>)
    ensures
        obs_view(*final(obs)) == add_observed(obs_view(*old(obs)), own_observed(*e, opt_text(*prefix), now), b),
{
    let ghost o0 = obs_view(*obs);
    proof {
        assert(add_observed(o0, Seq::empty(), b) == o0);
    }
    match e {
        SwEvaluator::Val { n, a1, .. } => {
            if *n == 1 {
                let mut ctx = SwEvalCtx {
                    val: None,
                    vals: None,
                    vals_prefix: None,
                    data: None,
                    topic: None,
                    dev: None,
                    msgs: None,
                    now,
                };
                proof {
                    assert(ctx@ == bare_ctx(now));
                }
                match a1.eval(&mut ctx) {
                    Ok(SwValue::String(s)) => {
                        let name = full_attr_name(prefix, s);
                        let ghost nv = name@;
                        add_obs(obs, name, b);
                        proof {
                            let one: Seq<Seq<char>> = seq![nv];
                            assert(one.drop_last() =~= Seq::<Seq<char>>::empty());
                            assert(add_observed(o0, one.drop_last(), b) == o0);
                        }
                    },
                    _ => {},
                }
            }
        },
        _ => {},
    }
}

/// Adds what an expression reads, as `add_observed` of `observed_in`
/// says.
fn collect_observed(
    e: &SwEvaluator,
    prefix: &Option<String>,
    now: i32,
    b: bool,
    obs: &mut Vec<(String, bool)>,
)
    ensures
        obs_view(*final(obs)) == add_observed(obs_view(*old(obs)), observed_in(*e, opt_text(*prefix), now), b),
    decreases e,
{
    let ghost pv = opt_text(*prefix);
    let ghost o0 = obs_view(*obs);
    collect_own(e, prefix, now, b, obs);
    let ghost own = own_observed(*e, pv, now);
    let ghost o1 = obs_view(*obs);
    match e {
        SwEvaluator::Std { op, a1, a2 } => {
            collect_observed(a1, prefix, now, b, obs);
            if *op == crate::tokenizer::StdOp::Neg || *op == crate::tokenizer::StdOp::BoolNeg {
                proof {
                    lemma_add_observed_concat(o0, own, observed_in(**a1, pv, now), b);
                }
            } else {
                collect_observed(a2, prefix, now, b, obs);
                proof {
                    let c1 = observed_in(**a1, pv, now);
                    let c2 = observed_in(**a2, pv, now);
                    lemma_add_observed_concat(o1, c1, c2, b);
                    lemma_add_observed_concat(o0, own, c1 + c2, b);
                }
            }
        },
        SwEvaluator::Semicolon { a1, a2 } | SwEvaluator::Strpos { a1, a2 } | SwEvaluator::Dechex { a1, a2 } | SwEvaluator::Val { a1, a2, .. } | SwEvaluator::Duration {
            a1,
            a2,
            ..
        } => {
            collect_observed(a1, prefix, now, b, obs);
            collect_observed(a2, prefix, now, b, obs);
            proof {
                let c1 = observed_in(**a1, pv, now);
                let c2 = observed_in(**a2, pv, now);
                lemma_add_observed_concat(o1, c1, c2, b);
                lemma_add_observed_concat(o0, own, c1 + c2, b);
            }
        },
        SwEvaluator::If { a1, a2, a3, .. } | SwEvaluator::Lpad { a1, a2, a3 } | SwEvaluator::Substr { a1, a2, a3, .. } => {
            collect_observed(a1, prefix, now, b, obs);
            collect_observed(a2, prefix, now, b, obs);
            collect_observed(a3, prefix, now, b, obs);
            proof {
                let c1 = observed_in(**a1, pv, now);
                let c2 = observed_in(**a2, pv, now);
                let c3 = observed_in(**a3, pv, now);
                lemma_add_observed_concat(o1, c1, c2, b);
                lemma_add_observed_concat(o1, c1 + c2, c3, b);
                lemma_add_observed_concat(o0, own, c1 + c2 + c3, b);
            }
        },
        SwEvaluator::Const { a } | SwEvaluator::ParseNum { a } | SwEvaluator::Hexdec { a } | SwEvaluator::Base64 { a } | SwEvaluator::DecodeHex { a } => {
            collect_observed(a, prefix, now, b, obs);
            proof {
                lemma_add_observed_concat(o0, own, observed_in(**a, pv, now), b);
            }
        },
        SwEvaluator::Scale { a1, a2, a3, a4, a5 } => {
            collect_observed(a1, prefix, now, b, obs);
            collect_observed(a2, prefix, now, b, obs);
            collect_observed(a3, prefix, now, b, obs);
            collect_observed(a4, prefix, now, b, obs);
            collect_observed(a5, prefix, now, b, obs);
            proof {
                let c1 = observed_in(**a1, pv, now);
                let c2 = observed_in(**a2, pv, now);
                let c3 = observed_in(**a3, pv, now);
                let c4 = observed_in(**a4, pv, now);
                let c5 = observed_in(**a5, pv, now);
                lemma_add_observed_concat(o1, c1, c2, b);
                lemma_add_observed_concat(o1, c1 + c2, c3, b);
                lemma_add_observed_concat(o1, c1 + c2 + c3, c4, b);
                lemma_add_observed_concat(o1, c1 + c2 + c3 + c4, c5, b);
                lemma_add_observed_concat(o0, own, c1 + c2 + c3 + c4 + c5, b);
            }
        },
        SwEvaluator::In { a, args, .. } => {
            collect_observed(a, prefix, now, b, obs);
            collect_list(args, prefix, now, b, obs);
            proof {
                let c1 = observed_in(**a, pv, now);
                let c2 = observed_list(**args, pv, now);
                lemma_add_observed_concat(o1, c1, c2, b);
                lemma_add_observed_concat(o0, own, c1 + c2, b);
            }
        },
        _ => {
            proof {
                assert(own + Seq::<Seq<char>>::empty() =~= own);
            }
        },
    }
}

/// Adds what the expressions of a list read, as `add_observed` of
/// `observed_list` says.
fn collect_list(
    l: &ExprList,
    prefix: &Option<String>,
    now: i32,
    b: bool,
    obs: &mut Vec<(String, bool)>,
)
    ensures
        obs_view(*final(obs)) == add_observed(obs_view(*old(obs)), observed_list(*l, opt_text(*prefix), now), b),
    decreases l,
{
    let ghost pv = opt_text(*prefix);
    let ghost o0 = obs_view(*obs);
    match l {
        ExprList::Nil => {
            proof {
                assert(add_observed(o0, Seq::empty(), b) == o0);
            }
        },
        ExprList::Cons(x, rest) => {
            collect_observed(x, prefix, now, b, obs);
            collect_list(rest, prefix, now, b, obs);
            proof {
                lemma_add_observed_concat(o0, observed_in(**x, pv, now), observed_list(**rest, pv, now), b);
            }
        },
    }
}

/// What an action observes and the messages by which it starts to, as
/// `spec_action_obs` and `observe_msgs` say.
pub fn action_obs(st: &ActionState, now: i32) -> (r: (Vec<(String, bool)>, Vec<SwMessage>))
    ensures
        obs_view(r.0) == spec_action_obs(st.on, st.tdo, opt_text(st.dev_prefix), now),
        r.1@.map_values(|m: SwMessage| m@) == observe_msgs(st.sender_id, obs_view(r.0)),
{
    let mut obs: Vec<(String, bool)> = Vec::new();
    proof {
        assert(obs_view(obs) =~= Seq::<(Seq<char>, bool)>::empty());
    }
    match &st.on {
        Some(w) => collect_observed(w, &st.dev_prefix, now, true, &mut obs),
        None => {},
    }
    collect_observed(&st.tdo, &st.dev_prefix, now, st.on.is_none(), &mut obs);
    let mut msgs: Vec<SwMessage> = Vec::new();
    let mut i: usize = 0;
    while i < obs.len()
        invariant
            i <= obs@.len(),
            msgs@.map_values(|m: SwMessage| m@) == observe_msgs(st.sender_id, obs_view(obs)).take(
                i as int,
            ),
        decreases obs@.len() - i,
    {
        let ghost before = msgs@.map_values(|m: SwMessage| m@);
        let m = SwMessage::ObserveAttr { sender_id: st.sender_id, name: obs[i].0.clone() };
        let ghost mv = m@;
        msgs.push(m);
        proof {
            assert(observe_msgs(st.sender_id, obs_view(obs)).take(i + 1) =~= before.push(mv));
        }
        i += 1;
    }
    proof {
        assert(observe_msgs(st.sender_id, obs_view(obs)).take(obs@.len() as int) =~= observe_msgs(
            st.sender_id,
            obs_view(obs),
        ));
    }
    (obs, msgs)
}

/// Sets the value named `name`, as `set_value` says.
fn set_val(vals: &mut Vec<(String, SwValue)>, name: String, value: SwValue)
    ensures
        pairs_view(*final(vals)) == set_value(pairs_view(*old(vals)), name@, value@),
{
    let ghost v0 = pairs_view(*vals);
    let ghost item = (name@, value@);
    match find_val(vals, &name) {
        Some(i) => {
            vals.set(i, (name, value));
            proof {
                assert(pairs_view(*vals) =~= v0.update(i as int, item));
            }
        },
        None => {
            vals.push((name, value));
            proof {
                assert(pairs_view(*vals) =~= v0.push(item));
            }
        },
    }
}

/// The messages for the values an evaluation set, as `set_msgs` says.
fn msgs_of(ms: &Vec<(String, SwValue)>) -> (r: Vec<SwMessage>)
    ensures
        r@.map_values(|m: SwMessage| m@) == set_msgs(pairs_view(*ms)),
{
    let mut r: Vec<SwMessage> = Vec::new();
    let mut i: usize = 0;
    while i < ms.len()
        invariant
            i <= ms@.len(),
            r@.map_values(|m: SwMessage| m@) == set_msgs(pairs_view(*ms)).take(i as int),
        decreases ms@.len() - i,
    {
        let ghost before = r@.map_values(|m: SwMessage| m@);
        let m = SwMessage::DevAttr { sender_id: 0, name: ms[i].0.clone(), value: ms[i].1.copy() };
        let ghost mv = m@;
        r.push(m);
        proof {
            assert(set_msgs(pairs_view(*ms)).take(i + 1) =~= before.push(mv));
        }
        i += 1;
    }
    proof {
        assert(set_msgs(pairs_view(*ms)).take(ms@.len() as int) =~= set_msgs(pairs_view(*ms)));
    }
    r
}

/// Takes a message, as `spec_action_step` says: a value it observes is
/// remembered and, where its condition reads it, the condition and then
/// the body may run; the values the body sets are sent on.
pub fn action_step(st: &mut ActionState, m: SwMessage, now: i32) -> (out: Vec<SwMessage>)
    ensures
        (final(st)@, out@.map_values(|x: SwMessage| x@)) == spec_action_step(old(st)@, m@, now),
{
    match m {
        SwMessage::DevAttr { sender_id: _, name, value } => {
            let eval_on = match find_obs(&st.obs, &name) {
                Some(i) => st.obs[i].1,
                None => false,
            };
            set_val(&mut st.vals, name, value);
            let mut vals: Vec<(String, SwValue)> = Vec::new();
            std::mem::swap(&mut vals, &mut st.vals);
            let prefix = match &st.dev_prefix {
                Some(p) => Some(p.clone()),
                None => None,
            };
            let mut ctx = SwEvalCtx {
                val: None,
                vals: Some(vals),
                vals_prefix: prefix,
                data: None,
                topic: None,
                dev: None,
                msgs: Some(Vec::new()),
                now,
            };
            proof {
                assert(pairs_view(ctx.msgs->Some_0) =~= Seq::<(Seq<char>, SwValueV)>::empty());
            }
            if eval_on {
                let go = match &st.on {
                    None => true,
                    Some(w) => match w.eval(&mut ctx) {
                        Ok(v) => match to_bool(&v) {
                            Ok(b) => b,
                            Err(_) => false,
                        },
                        Err(_) => false,
                    },
                };
                if go {
                    let _ = st.tdo.eval(&mut ctx);
                }
            }
            match ctx.vals {
                Some(v) => {
                    st.vals = v;
                    match &ctx.msgs {
                        Some(ms) => msgs_of(ms),
                        None => {
                            let r: Vec<SwMessage> = Vec::new();
                            proof {
                                assert(r@.map_values(|x: SwMessage| x@) =~= set_msgs(Seq::empty()));
                            }
                            r
                        },
                    }
                },
                None => {
                    let r: Vec<SwMessage> = Vec::new();
                    proof {
                        assert(pairs_view(st.vals) =~= Seq::<(Seq<char>, SwValueV)>::empty());
                        assert(r@.map_values(|x: SwMessage| x@) =~= Seq::<SwMessageV>::empty());
                    }
                    r
                },
            }
        },
        _ => {
            let r: Vec<SwMessage> = Vec::new();
            proof {
                assert(r@.map_values(|x: SwMessage| x@) =~= Seq::<SwMessageV>::empty());
            }
            r
        },
    }
}

/// A value of an attribute the condition does not read is remembered and
/// nothing is sent; any other message than a value changes nothing.
pub proof fn lemma_action_quiet(st: ActionStateV, m: SwMessageV, now: i32)
    requires
        !(m is DevAttr) || find_named(st.obs, m->DevAttr_name) < 0 || !st.obs[find_named(
            st.obs,
            m->DevAttr_name,
        )].1,
    ensures
        spec_action_step(st, m, now).1 == Seq::<SwMessageV>::empty(),
        m is DevAttr ==> spec_action_step(st, m, now).0 == (ActionStateV {
            vals: set_value(st.vals, m->DevAttr_name, m->DevAttr_value),
            ..st
        }),
        !(m is DevAttr) ==> spec_action_step(st, m, now).0 == st,
{
    assert(set_msgs(Seq::empty()) =~= Seq::<SwMessageV>::empty());
}

} // verus!
