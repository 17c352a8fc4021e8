//! The mechanism registry: descriptors with a name, a priority and the sides
//! they serve; `offer` lists what a side may advertise, `select` picks the
//! mechanism to run.
use vstd::prelude::*;
use crate::mechname::{MechnameError, check_mechname, mechname_error, valid_mechname};
use crate::session::{Instance, Session, SessionState, Side};
use crate::anonymous::Anonymous;
use crate::plain::Plain;
use crate::client::{AnonymousClient, PlainClient};

verus! {

/// Which mechanism a descriptor makes instances of.
#[derive(Debug, Clone, Copy, PartialEq, Eq, Structural)]
pub enum MechKind {
    Anonymous,
    Plain,
}

/// The configuration that `offer` and `select` consult.
#[derive(Debug, Clone, Copy, PartialEq, Eq, Structural)]
pub struct SaslConfig {
    /// Whether channel-binding data is available to mechanisms.
    pub channel_binding: bool,
}

/// A mechanism descriptor.
#[derive(Debug)]
pub struct Mechanism {
    pub name: Vec<u8>,
    /// Higher wins when several mechanisms could be chosen.
    pub priority: u32,
    pub client: bool,
    pub server: bool,
    /// Offered only where channel-binding data is available.
    pub needs_channel_binding: bool,
    pub kind: MechKind,
}

/// Whether a descriptor serves a side under a configuration.
pub open spec fn offerable(m: Mechanism, side: Side, cfg: SaslConfig) -> bool {
    &&& match side {
        Side::Client => m.client,
        Side::Server => m.server,
    }
    &&& (!m.needs_channel_binding || cfg.channel_binding)
}

/// The names of a candidate list.
pub open spec fn names_of(cands: Seq<Vec<u8>>) -> Seq<Seq<u8>> {
    cands.map_values(|v: Vec<u8>| v@)
}

/// Whether a descriptor can be selected: it is offerable and, where a
/// candidate list is given, its name is on it.
pub open spec fn selectable(
    m: Mechanism,
    side: Side,
    cfg: SaslConfig,
    cands: Option<Seq<Seq<u8>>>,
) -> bool {
    &&& offerable(m, side, cfg)
    &&& match cands {
        None => true,
        Some(cs) => cs.contains(m.name@),
    }
}

/// Descriptor `i` goes before descriptor `j`: a higher priority, or the
/// same priority and an earlier registration.
pub open spec fn outranks(ms: Seq<Mechanism>, i: int, j: int) -> bool {
    ms[i].priority > ms[j].priority || (ms[i].priority == ms[j].priority && i < j)
}

/// Descriptor `i` is the one `select` chooses.
pub open spec fn is_selected(
    ms: Seq<Mechanism>,
    side: Side,
    cfg: SaslConfig,
    cands: Option<Seq<Seq<u8>>>,
    i: int,
) -> bool {
    &&& 0 <= i < ms.len()
    &&& selectable(ms[i], side, cfg, cands)
    &&& forall|j: int|
        0 <= j < ms.len() && j != i && selectable(#[trigger] ms[j], side, cfg, cands) ==> outranks(
            ms,
            i,
            j,
        )
}

/// The position of the descriptor `select` chooses, if any is selectable.
pub open spec fn selected(
    ms: Seq<Mechanism>,
    side: Side,
    cfg: SaslConfig,
    cands: Option<Seq<Seq<u8>>>,
) -> Option<int> {
    if exists|i: int| is_selected(ms, side, cfg, cands, i) {
        Some(choose|i: int| is_selected(ms, side, cfg, cands, i))
    } else {
        None
    }
}

/// `idx` lists every offerable descriptor once, in rank order.
pub open spec fn is_offer_order(ms: Seq<Mechanism>, side: Side, cfg: SaslConfig, idx: Seq<int>) -> bool {
    &&& forall|k: int|
        0 <= k < idx.len() ==> 0 <= #[trigger] idx[k] < ms.len() && offerable(ms[idx[k]], side, cfg)
    &&& forall|i: int| 0 <= i < ms.len() && offerable(#[trigger] ms[i], side, cfg) ==> idx.contains(i)
    &&& forall|k: int, l: int| 0 <= k < l < idx.len() ==> outranks(ms, #[trigger] idx[k], #[trigger] idx[l])
}

/// Positions as integers.
pub open spec fn ints(s: Seq<usize>) -> Seq<int> {
    s.map_values(|x: usize| x as int)
}

/// Why a registration failed.
#[derive(Debug, Clone, Copy, PartialEq, Eq, Structural)]
pub enum RegistrationError {
    /// The name is not a mechanism name.
    InvalidName(MechnameError),
    /// A mechanism of that name is registered already.
    Duplicate,
}

/// Whether a name is registered.
pub open spec fn has_name(ms: Seq<Mechanism>, name: Seq<u8>) -> bool {
    exists|i: int| 0 <= i < ms.len() && (#[trigger] ms[i]).name@ == name
}

/// The catalog of known mechanisms, in registration order.
#[derive(Debug)]
pub struct Registry {
    pub mechanisms: Vec<Mechanism>,
}

/// Whether two byte strings are equal.
pub fn bytes_eq(a: &[u8], b: &[u8]) -> (r: bool)
    ensures
        r == (a@ == b@),
{
    if a.len() != b.len() {
        return false;
    }
    let mut i: usize = 0;
    while i < a.len()
        invariant
            0 <= i <= a@.len(),
            a@.len() == b@.len(),
            forall|k: int| 0 <= k < i ==> a@[k] == b@[k],
        decreases a@.len() - i,
    {
        if a[i] != b[i] {
            return false;
        }
        i = i + 1;
    }
    assert(a@ =~= b@);
    true
}

/// A copy of a byte string.
pub fn copy_bytes(a: &Vec<u8>) -> (r: Vec<u8>)
    ensures
        r@ == a@,
{
    vstd::slice::slice_to_vec(a.as_slice())
}

/// Makes a fresh instance of a mechanism for a side.
pub fn instantiate(kind: MechKind, side: Side) -> (r: Instance)
    ensures
        r == instance_of(kind, side),
{
    match (kind, side) {
        (MechKind::Anonymous, Side::Server) => Instance::AnonymousServer(Anonymous),
        (MechKind::Plain, Side::Server) => Instance::PlainServer(Plain),
        (MechKind::Anonymous, Side::Client) => Instance::AnonymousClient(AnonymousClient),
        (MechKind::Plain, Side::Client) => Instance::PlainClient(PlainClient),
    }
}

/// The instance a mechanism makes for a side.
pub open spec fn instance_of(kind: MechKind, side: Side) -> Instance {
    match (kind, side) {
        (MechKind::Anonymous, Side::Server) => Instance::AnonymousServer(Anonymous),
        (MechKind::Plain, Side::Server) => Instance::PlainServer(Plain),
        (MechKind::Anonymous, Side::Client) => Instance::AnonymousClient(AnonymousClient),
        (MechKind::Plain, Side::Client) => Instance::PlainClient(PlainClient),
    }
}

/// The names of an optional candidate list.
pub open spec fn opt_names(cands: Option<&[Vec<u8>]>) -> Option<Seq<Seq<u8>>> {
    match cands {
        Some(cs) => Some(names_of(cs@)),
        None => None,
    }
}

/// Whether a descriptor serves a side under a configuration.
pub fn is_offerable(m: &Mechanism, side: Side, cfg: &SaslConfig) -> (r: bool)
    ensures
        r == offerable(*m, side, *cfg),
{
    let serves = match side {
        Side::Client => m.client,
        Side::Server => m.server,
    };
    serves && (!m.needs_channel_binding || cfg.channel_binding)
}

/// Whether `name` is on the candidate list.
pub fn is_listed(cands: &[Vec<u8>], name: &[u8]) -> (r: bool)
    ensures
        r == names_of(cands@).contains(name@),
{
    let mut i: usize = 0;
    while i < cands.len()
        invariant
            0 <= i <= cands@.len(),
            forall|k: int| 0 <= k < i ==> (#[trigger] cands@[k])@ != name@,
        decreases cands@.len() - i,
    {
        if bytes_eq(cands[i].as_slice(), name) {
            assert(names_of(cands@)[i as int] == name@);
            return true;
        }
        i = i + 1;
    }
    assert(!names_of(cands@).contains(name@)) by {
        assert forall|k: int| 0 <= k < names_of(cands@).len() implies names_of(cands@)[k] != name@ by {
            assert(cands@[k]@ != name@);
        }
    }
    false
}

/// Whether a descriptor can be selected.
pub fn is_selectable(
    m: &Mechanism,
    side: Side,
    cfg: &SaslConfig,
    cands: Option<&[Vec<u8>]>,
) -> (r: bool)
    ensures
        r == selectable(*m, side, *cfg, opt_names(cands)),
{
    if !is_offerable(m, side, cfg) {
        return false;
    }
    match cands {
        None => true,
        Some(cs) => is_listed(cs, m.name.as_slice()),
    }
}

/// At most one descriptor is the one `select` chooses, so the choice is a
/// function of the registry, side, configuration and candidates.
pub proof fn lemma_selected_unique(
    ms: Seq<Mechanism>,
    side: Side,
    cfg: SaslConfig,
    cands: Option<Seq<Seq<u8>>>,
    i: int,
    j: int,
)
    requires
        is_selected(ms, side, cfg, cands, i),
        is_selected(ms, side, cfg, cands, j),
    ensures
        i == j,
{
    if i != j {
        assert(selectable(ms[j], side, cfg, cands));
        assert(selectable(ms[i], side, cfg, cands));
        assert(outranks(ms, i, j));
        assert(outranks(ms, j, i));
    }
}

/// A client session of `mechanism` that has taken no step, for exercising
/// a protocol embedding against a mechanism.
pub fn test_client_session(mechanism: &Mechanism) -> (r: Session)
    requires
        mechanism.client,
    ensures
        r.side == Side::Client,
        r.state == SessionState::NotStarted,
        r.mechanism == instance_of(mechanism.kind, Side::Client),
        r.name@ == mechanism.name@,
{
    Session::new(Side::Client, instantiate(mechanism.kind, Side::Client), copy_bytes(&mechanism.name))
}

/// Of two mechanisms that could both be selected, the one of higher
/// priority wins: the other is never chosen, and some mechanism is.
pub proof fn lemma_select_prefers_priority(
    ms: Seq<Mechanism>,
    side: Side,
    cfg: SaslConfig,
    cands: Option<Seq<Seq<u8>>>,
    i: int,
    j: int,
)
    requires
        0 <= i < ms.len(),
        0 <= j < ms.len(),
        selectable(ms[i], side, cfg, cands),
        selectable(ms[j], side, cfg, cands),
        ms[i].priority > ms[j].priority,
    ensures
        selected(ms, side, cfg, cands) is Some,
        selected(ms, side, cfg, cands) != Some(j),
{
    lemma_selection_exists(ms, side, cfg, cands, i);
    let c = choose|c: int| is_selected(ms, side, cfg, cands, c);
    if c == j {
        assert(outranks(ms, j, i));
    }
}

/// The choice depends on the candidate names as a set: the same names, in
/// any order and with any repetition, under the same side and configuration,
/// select the same mechanism.
pub proof fn lemma_select_deterministic(
    ms: Seq<Mechanism>,
    side: Side,
    cfg: SaslConfig,
    c1: Seq<Seq<u8>>,
    c2: Seq<Seq<u8>>,
)
    requires
        c1.to_set() == c2.to_set(),
    ensures
        selected(ms, side, cfg, Some(c1)) == selected(ms, side, cfg, Some(c2)),
{
    assert forall|m: Mechanism| selectable(m, side, cfg, Some(c1)) == selectable(m, side, cfg, Some(c2)) by {
        assert(c1.to_set().contains(m.name@) == c1.contains(m.name@));
        assert(c2.to_set().contains(m.name@) == c2.contains(m.name@));
    }
    assert forall|i: int| is_selected(ms, side, cfg, Some(c1), i) == is_selected(ms, side, cfg, Some(c2), i) by {
        if 0 <= i < ms.len() {
            assert(selectable(ms[i], side, cfg, Some(c1)) == selectable(ms[i], side, cfg, Some(c2)));
        }
    }
    if exists|i: int| is_selected(ms, side, cfg, Some(c1), i) {
        let a = choose|i: int| is_selected(ms, side, cfg, Some(c1), i);
        let b = choose|i: int| is_selected(ms, side, cfg, Some(c2), i);
        assert(is_selected(ms, side, cfg, Some(c2), a));
        assert(is_selected(ms, side, cfg, Some(c1), b));
        lemma_selected_unique(ms, side, cfg, Some(c1), a, b);
    }
}

/// A selectable mechanism that outranks every other selectable one is the
/// one chosen.
pub proof fn lemma_select_picks_top(
    ms: Seq<Mechanism>,
    side: Side,
    cfg: SaslConfig,
    cands: Option<Seq<Seq<u8>>>,
    i: int,
)
    requires
        0 <= i < ms.len(),
        selectable(ms[i], side, cfg, cands),
        forall|j: int|
            0 <= j < ms.len() && j != i && selectable(#[trigger] ms[j], side, cfg, cands)
                ==> outranks(ms, i, j),
    ensures
        selected(ms, side, cfg, cands) == Some(i),
{
    assert(is_selected(ms, side, cfg, cands, i));
    let c = choose|c: int| is_selected(ms, side, cfg, cands, c);
    lemma_selected_unique(ms, side, cfg, cands, i, c);
}

/// Where some mechanism can be selected, one is chosen.
pub proof fn lemma_selection_exists(
    ms: Seq<Mechanism>,
    side: Side,
    cfg: SaslConfig,
    cands: Option<Seq<Seq<u8>>>,
    i: int,
)
    requires
        0 <= i < ms.len(),
        selectable(ms[i], side, cfg, cands),
    ensures
        exists|c: int| is_selected(ms, side, cfg, cands, c),
    decreases ms.len(),
{
    let n = (ms.len() - 1) as int;
    if n == 0 {
        assert(is_selected(ms, side, cfg, cands, 0));
    } else {
        let front = ms.subrange(0, n);
        if exists|k: int| 0 <= k < n && selectable(#[trigger] front[k], side, cfg, cands) {
            let k = choose|k: int| 0 <= k < n && selectable(#[trigger] front[k], side, cfg, cands);
            lemma_selection_exists(front, side, cfg, cands, k);
            let c = choose|c: int| is_selected(front, side, cfg, cands, c);
            assert(front[c] == ms[c]);
            if selectable(ms[n], side, cfg, cands) && ms[n].priority > ms[c].priority {
                assert forall|j: int|
                    0 <= j < ms.len() && j != n && selectable(#[trigger] ms[j], side, cfg, cands)
                        implies outranks(ms, n, j) by {
                    assert(front[j] == ms[j]);
                    if j != c {
                        assert(outranks(front, c, j));
                    }
                }
                assert(is_selected(ms, side, cfg, cands, n));
            } else {
                assert forall|j: int|
                    0 <= j < ms.len() && j != c && selectable(#[trigger] ms[j], side, cfg, cands)
                        implies outranks(ms, c, j) by {
                    if j < n {
                        assert(front[j] == ms[j]);
                        assert(outranks(front, c, j));
                    }
                }
                assert(is_selected(ms, side, cfg, cands, c));
            }
        } else {
            if i < n {
                assert(front[i] == ms[i]);
            }
            assert forall|j: int|
                0 <= j < ms.len() && j != n && selectable(#[trigger] ms[j], side, cfg, cands)
                    implies outranks(ms, n, j) by {
                assert(front[j] == ms[j]);
            }
            assert(is_selected(ms, side, cfg, cands, n));
        }
    }
}

impl Registry {
    /// Every registered name is a valid mechanism name, and no two are equal.
    pub open spec fn wf(&self) -> bool {
        &&& forall|i: int|
            0 <= i < self.mechanisms@.len() ==> valid_mechname(
                (#[trigger] self.mechanisms@[i]).name@,
            )
        &&& forall|i: int, j: int|
            0 <= i < j < self.mechanisms@.len() ==> (#[trigger] self.mechanisms@[i]).name@
                != (#[trigger] self.mechanisms@[j]).name@
    }

    /// An empty registry.
    pub fn new() -> (r: Registry)
        ensures
            r.wf(),
            r.mechanisms@.len() == 0,
    {
        Registry { mechanisms: Vec::new() }
    }

    /// Whether a mechanism of this name is registered.
    pub fn contains(&self, name: &[u8]) -> (r: bool)
        ensures
            r == has_name(self.mechanisms@, name@),
    {
        let mut i: usize = 0;
        while i < self.mechanisms.len()
            invariant
                0 <= i <= self.mechanisms@.len(),
                forall|k: int| 0 <= k < i ==> (#[trigger] self.mechanisms@[k]).name@ != name@,
            decreases self.mechanisms@.len() - i,
        {
            if bytes_eq(self.mechanisms[i].name.as_slice(), name) {
                return true;
            }
            i = i + 1;
        }
        false
    }

    /// Adds a mechanism. A name outside the mechanism-name rules, or one that
    /// is registered already, is refused and leaves the registry as it was.
    pub fn register(&mut self, mechanism: Mechanism) -> (r: Result<(), RegistrationError>)
        requires
            old(self).wf(),
        ensures
            final(self).wf(),
            r == (match mechname_error(mechanism.name@) {
                Some(e) => Err(RegistrationError::InvalidName(e)),
                None => if has_name(old(self).mechanisms@, mechanism.name@) {
                    Err(RegistrationError::Duplicate)
                } else {
                    Ok(())
                },
            }),
            r is Ok ==> final(self).mechanisms@ == old(self).mechanisms@.push(mechanism),
            r is Err ==> *final(self) == *old(self),
    {
        match check_mechname(mechanism.name.as_slice()) {
            Err(e) => {
                return Err(RegistrationError::InvalidName(e));
            },
            Ok(()) => {},
        }
        if self.contains(mechanism.name.as_slice()) {
            return Err(RegistrationError::Duplicate);
        }
        self.mechanisms.push(mechanism);
        Ok(())
    }
}

impl Registry {
    /// The position of the mechanism `select` chooses: among those that
    /// serve the side, pass the configuration and, where candidates are
    /// given, carry a listed name, the one of highest priority, and of
    /// those the earliest registered.
    pub fn select_index(
        &self,
        side: Side,
        cands: Option<&[Vec<u8>]>,
        cfg: &SaslConfig,
    ) -> (r: Option<usize>)
        ensures
            match selected(self.mechanisms@, side, *cfg, opt_names(cands)) {
                None => r is None,
                Some(i) => r == Some(i as usize),
            },
            r is Some ==> r->0 < self.mechanisms@.len() && selected(
                self.mechanisms@,
                side,
                *cfg,
                opt_names(cands),
            ) == Some(r->0 as int),
    {
        let ghost ms = self.mechanisms@;
        let ghost cn = opt_names(cands);
        let mut best: Option<usize> = None;
        let mut i: usize = 0;
        while i < self.mechanisms.len()
            invariant
                0 <= i <= ms.len(),
                ms == self.mechanisms@,
                cn == opt_names(cands),
                best is None ==> forall|j: int|
                    0 <= j < i ==> !selectable(#[trigger] ms[j], side, *cfg, cn),
                best is Some ==> {
                    let b = best->0 as int;
                    &&& 0 <= b < i
                    &&& selectable(ms[b], side, *cfg, cn)
                    &&& forall|j: int|
                        0 <= j < i && j != b && selectable(#[trigger] ms[j], side, *cfg, cn)
                            ==> outranks(ms, b, j)
                },
            decreases ms.len() - i,
        {
            if is_selectable(&self.mechanisms[i], side, cfg, cands) {
                match best {
                    None => {
                        best = Some(i);
                    },
                    Some(b) => {
                        if self.mechanisms[i].priority > self.mechanisms[b].priority {
                            best = Some(i);
                        }
                    },
                }
            }
            i = i + 1;
        }
        match best {
            None => {
                assert(!exists|k: int| is_selected(ms, side, *cfg, cn, k));
            },
            Some(b) => {
                assert(is_selected(ms, side, *cfg, cn, b as int));
                let ghost c = choose|k: int| is_selected(ms, side, *cfg, cn, k);
                proof {
                    lemma_selected_unique(ms, side, *cfg, cn, b as int, c);
                }
            },
        }
        best
    }

    /// The positions of the mechanisms that serve `side` under `cfg`, by
    /// descending priority, and by registration order where priorities tie.
    pub fn offer_indices(&self, side: Side, cfg: &SaslConfig) -> (r: Vec<usize>)
        ensures
            is_offer_order(self.mechanisms@, side, *cfg, ints(r@)),
    {
        let ghost ms = self.mechanisms@;
        let mut res: Vec<usize> = Vec::new();
        let mut i: usize = 0;
        while i < self.mechanisms.len()
            invariant
                0 <= i <= ms.len(),
                ms == self.mechanisms@,
                forall|k: int|
                    0 <= k < res@.len() ==> (#[trigger] res@[k]) < i && offerable(
                        ms[res@[k] as int],
                        side,
                        *cfg,
                    ),
                forall|j: int| 0 <= j < i && offerable(#[trigger] ms[j], side, *cfg) ==> exists|m: int|
                    0 <= m < res@.len() && res@[m] == j,
                forall|k: int, l: int|
                    0 <= k < l < res@.len() ==> outranks(
                        ms,
                        #[trigger] res@[k] as int,
                        #[trigger] res@[l] as int,
                    ),
            decreases ms.len() - i,
        {
            if is_offerable(&self.mechanisms[i], side, cfg) {
                let prio = self.mechanisms[i].priority;
                let mut p: usize = 0;
                while p < res.len() && self.mechanisms[res[p]].priority >= prio
                    invariant
                        0 <= p <= res@.len(),
                        ms == self.mechanisms@,
                        i < ms.len(),
                        prio == ms[i as int].priority,
                        forall|k: int| 0 <= k < res@.len() ==> (#[trigger] res@[k]) < i,
                        forall|q: int| 0 <= q < p ==> ms[(#[trigger] res@[q]) as int].priority >= prio,
                    decreases res@.len() - p,
                {
                    p = p + 1;
                }
                let ghost old_res = res@;
                proof {
                    assert forall|q: int| p <= q < old_res.len() implies ms[(
                    #[trigger] old_res[q]) as int].priority < prio by {
                        if q > p {
                            assert(outranks(ms, old_res[p as int] as int, old_res[q] as int));
                        }
                    }
                }
                res.insert(p, i);
                proof {
                    let n = res@;
                    assert(n == old_res.insert(p as int, i));
                    assert forall|k: int, l: int| 0 <= k < l < n.len() implies outranks(
                        ms,
                        #[trigger] n[k] as int,
                        #[trigger] n[l] as int,
                    ) by {
                        if l < p {
                            assert(n[k] == old_res[k] && n[l] == old_res[l]);
                        } else if l == p {
                            assert(n[k] == old_res[k]);
                        } else if k < p {
                            assert(n[k] == old_res[k] && n[l] == old_res[l - 1]);
                        } else if k == p {
                            assert(n[l] == old_res[l - 1]);
                        } else {
                            assert(n[k] == old_res[k - 1] && n[l] == old_res[l - 1]);
                        }
                    }
                    assert forall|j: int|
                        0 <= j < i + 1 && offerable(#[trigger] ms[j], side, *cfg) implies exists|m: int|
                        0 <= m < n.len() && n[m] == j by {
                        if j == i {
                            assert(n[p as int] == j);
                        } else {
                            let m = choose|m: int| 0 <= m < old_res.len() && old_res[m] == j;
                            if m < p {
                                assert(n[m] == j);
                            } else {
                                assert(n[m + 1] == j);
                            }
                        }
                    }
                    assert forall|k: int| 0 <= k < n.len() implies (#[trigger] n[k]) < i + 1
                        && offerable(ms[n[k] as int], side, *cfg) by {
                        if k < p {
                            assert(n[k] == old_res[k]);
                        } else if k > p {
                            assert(n[k] == old_res[k - 1]);
                        }
                    }
                }
            }
            i = i + 1;
        }
        proof {
            let idx = ints(res@);
            assert forall|j: int| 0 <= j < ms.len() && offerable(#[trigger] ms[j], side, *cfg) implies idx.contains(j) by {
                let m = choose|m: int| 0 <= m < res@.len() && res@[m] == j;
                assert(idx[m] == j);
            }
        }
        res
    }

    /// The names that `side` may advertise under `cfg`, by descending
    /// priority, and by registration order where priorities tie.
    pub fn offer(&self, side: Side, cfg: &SaslConfig) -> (r: Vec<Vec<u8>>)
        ensures
            exists|idx: Seq<int>|
                {
                    &&& is_offer_order(self.mechanisms@, side, *cfg, idx)
                    &&& #[trigger] idx.len() == r@.len()
                    &&& forall|k: int| 0 <= k < idx.len() ==> (#[trigger] r@[k])@ == self.mechanisms@[idx[k]].name@
                },
    {
        let order = self.offer_indices(side, cfg);
        let mut names: Vec<Vec<u8>> = Vec::new();
        let mut k: usize = 0;
        while k < order.len()
            invariant
                0 <= k <= order@.len(),
                is_offer_order(self.mechanisms@, side, *cfg, ints(order@)),
                names@.len() == k,
                forall|m: int| 0 <= m < k ==> (#[trigger] names@[m])@ == self.mechanisms@[order@[m] as int].name@,
            decreases order@.len() - k,
        {
            assert(ints(order@)[k as int] == order@[k as int] as int);
            let name = copy_bytes(&self.mechanisms[order[k]].name);
            names.push(name);
            k = k + 1;
        }
        let ghost idx = ints(order@);
        assert(idx.len() == names@.len());
        assert forall|m: int| 0 <= m < idx.len() implies (#[trigger] names@[m])@ == self.mechanisms@[idx[m]].name@ by {
            assert(idx[m] == order@[m] as int);
        }
        names
    }

    /// Instantiates the mechanism `select_index` chooses, for `side`, as a
    /// session that has taken no step; `None` where no mechanism qualifies.
    pub fn select(&self, side: Side, cands: Option<&[Vec<u8>]>, cfg: &SaslConfig) -> (r: Option<
        Session,
    >)
        ensures
            match selected(self.mechanisms@, side, *cfg, opt_names(cands)) {
                None => r is None,
                Some(i) => r is Some && r->0.side == side && r->0.state == SessionState::NotStarted
                    && r->0.mechanism == instance_of(self.mechanisms@[i].kind, side)
                    && r->0.name@ == self.mechanisms@[i].name@,
            },
    {
        match self.select_index(side, cands, cfg) {
            None => None,
            Some(i) => {
                let m = &self.mechanisms[i];
                Some(Session::new(side, instantiate(m.kind, side), copy_bytes(&m.name)))
            },
        }
    }
}

} // verus!
