//! The server's book of active tunnels: when each was last heard of.

use vstd::prelude::*;

use crate::text::same;

verus! {

/// A tunnel that has been silent for longer than this many nanoseconds is stale.
pub const STALE_CONNECTION_TIMEOUT: u128 = 120_000_000_000;

/// What the book holds about a tunnel: the time of its last activity, in
/// nanoseconds on the caller's monotonic clock.
#[derive(Clone, Copy, Debug, PartialEq, Eq, Structural)]
pub struct TunnelInfo {
    pub last_activity: u128,
}

/// Whether a tunnel last heard of at `last` is stale at `now`. A clock that
/// reads earlier than `last` makes nothing stale.
pub open spec fn stale(last: u128, now: u128) -> bool {
    now - last > STALE_CONNECTION_TIMEOUT
}

/// The book with the activity of `id` moved to `now`; a tunnel that is not in
/// the book is not added.
pub open spec fn touched(m: Map<Seq<char>, TunnelInfo>, id: Seq<char>, now: u128) -> Map<
    Seq<char>,
    TunnelInfo,
> {
    if m.contains_key(id) {
        m.insert(id, TunnelInfo { last_activity: now })
    } else {
        m
    }
}

/// The book without the tunnels that are stale at `now`.
pub open spec fn pruned(m: Map<Seq<char>, TunnelInfo>, now: u128) -> Map<Seq<char>, TunnelInfo> {
    m.restrict(Set::new(|id: Seq<char>| m.contains_key(id) && !stale(m[id].last_activity, now)))
}

/// A map from the names of the active tunnels to what is known of them.
pub struct TunnelMap {
    entries: Vec<(String, TunnelInfo)>,
}

spec fn holds(entries: Seq<(String, TunnelInfo)>, id: Seq<char>) -> bool {
    exists|i: int| 0 <= i < entries.len() && (#[trigger] entries[i]).0@ == id
}

spec fn place(entries: Seq<(String, TunnelInfo)>, id: Seq<char>) -> int {
    choose|i: int| 0 <= i < entries.len() && (#[trigger] entries[i]).0@ == id
}

spec fn as_map(entries: Seq<(String, TunnelInfo)>) -> Map<Seq<char>, TunnelInfo> {
    Map::new(|id: Seq<char>| holds(entries, id), |id: Seq<char>| entries[place(entries, id)].1)
}

spec fn distinct(entries: Seq<(String, TunnelInfo)>) -> bool {
    forall|i: int, j: int|
        0 <= i < j < entries.len() ==> (#[trigger] entries[i]).0@ != (#[trigger] entries[j]).0@
}

impl View for TunnelMap {
    type V = Map<Seq<char>, TunnelInfo>;

    closed spec fn view(&self) -> Map<Seq<char>, TunnelInfo> {
        as_map(self.entries@)
    }
}

impl TunnelMap {
    #[verifier::type_invariant]
    spec fn names_are_unique(&self) -> bool {
        distinct(self.entries@)
    }

    /// An empty map.
    pub fn new() -> (r: TunnelMap)
        ensures
            r@ == Map::<Seq<char>, TunnelInfo>::empty(),
    {
        let r = TunnelMap { entries: Vec::new() };
        assert(r@ =~= Map::<Seq<char>, TunnelInfo>::empty());
        r
    }

    fn find(&self, id: &str) -> (r: Option<usize>)
        ensures
            match r {
                Some(i) => i < self.entries@.len() && self.entries@[i as int].0@ == id@,
                None => !holds(self.entries@, id@),
            },
    {
        let mut i: usize = 0;
        while i < self.entries.len()
            invariant
                i <= self.entries@.len(),
                forall|j: int| 0 <= j < i ==> (#[trigger] self.entries@[j]).0@ != id@,
            decreases self.entries@.len() - i,
        {
            if same(self.entries[i].0.as_str(), id) {
                return Some(i);
            }
            i = i + 1;
        }
        None
    }

    /// What is known of a tunnel.
    pub fn get(&self, id: &str) -> (r: Option<TunnelInfo>)
        ensures
            r == (if self@.contains_key(id@) {
                Some(self@[id@])
            } else {
                None
            }),
    {
        proof {
            use_type_invariant(self);
        }
        match self.find(id) {
            Some(i) => {
                proof {
                    lemma_place(self.entries@, i as int);
                }
                Some(self.entries[i].1)
            },
            None => None,
        }
    }

    /// Enters a tunnel that is active at `now`, in place of one of the same name.
    pub fn insert(&mut self, id: String, now: u128)
        ensures
            final(self)@ == old(self)@.insert(id@, TunnelInfo { last_activity: now }),
    {
        proof {
            use_type_invariant(&*self);
        }
        let info = TunnelInfo { last_activity: now };
        match self.find(id.as_str()) {
            Some(i) => {
                let mut entries: Vec<(String, TunnelInfo)> = Vec::new();
                std::mem::swap(&mut entries, &mut self.entries);
                let ghost before = entries@;
                proof {
                    lemma_replace(before, i as int, (id, info));
                }
                entries[i] = (id, info);
                self.entries = entries;
            },
            None => {
                let mut entries: Vec<(String, TunnelInfo)> = Vec::new();
                std::mem::swap(&mut entries, &mut self.entries);
                proof {
                    lemma_push(entries@, (id, info));
                }
                entries.push((id, info));
                self.entries = entries;
            },
        }
    }

    /// Notes that a tunnel is active at `now`; does nothing where the map does
    /// not hold it.
    pub fn touch(&mut self, id: &str, now: u128)
        ensures
            final(self)@ == touched(old(self)@, id@, now),
    {
        proof {
            use_type_invariant(&*self);
        }
        match self.find(id) {
            Some(i) => {
                let name = self.entries[i].0.clone();
                proof {
                    lemma_place(self.entries@, i as int);
                }
                self.insert(name, now);
            },
            None => {},
        }
    }

    /// Forgets a tunnel.
    pub fn remove(&mut self, id: &str)
        ensures
            final(self)@ == old(self)@.remove(id@),
    {
        proof {
            use_type_invariant(&*self);
        }
        match self.find(id) {
            Some(i) => {
                let mut entries: Vec<(String, TunnelInfo)> = Vec::new();
                std::mem::swap(&mut entries, &mut self.entries);
                proof {
                    lemma_drop(entries@, i as int);
                }
                entries.remove(i);
                self.entries = entries;
            },
            None => {
                assert(self@.remove(id@) =~= self@);
            },
        }
    }

    /// Forgets every tunnel that is stale at `now` and returns their names.
    pub fn prune(&mut self, now: u128) -> (removed: Vec<String>)
        ensures
            final(self)@ == pruned(old(self)@, now),
            forall|id: Seq<char>|
                (exists|i: int| 0 <= i < removed@.len() && (#[trigger] removed@[i])@ == id) <==> (
                old(self)@.contains_key(id) && stale(#[trigger] old(self)@[id].last_activity, now)),
            forall|i: int, j: int|
                0 <= i < j < removed@.len() ==> (#[trigger] removed@[i])@ != (
                #[trigger] removed@[j])@,
    {
        proof {
            use_type_invariant(&*self);
        }
        let mut entries: Vec<(String, TunnelInfo)> = Vec::new();
        std::mem::swap(&mut entries, &mut self.entries);
        let ghost all = as_map(entries@);
        let mut removed: Vec<String> = Vec::new();
        let mut i: usize = 0;
        while i < entries.len()
            invariant
                i <= entries@.len(),
                distinct(entries@),
                forall|k: int|
                    0 <= k < i ==> !stale((#[trigger] entries@[k]).1.last_activity, now),
                forall|id: Seq<char>| #[trigger]
                    as_map(entries@).contains_key(id) ==> all.contains_key(id) && all[id] == as_map(
                        entries@,
                    )[id],
                forall|id: Seq<char>| #[trigger]
                    all.contains_key(id) ==> as_map(entries@).contains_key(id) || exists|k: int|
                        0 <= k < removed@.len() && (#[trigger] removed@[k])@ == id,
                forall|k: int|
                    #![trigger removed@[k]]
                    0 <= k < removed@.len() ==> all.contains_key(removed@[k]@) && stale(
                        all[removed@[k]@].last_activity,
                        now,
                    ) && !as_map(entries@).contains_key(removed@[k]@),
                forall|k: int, j: int|
                    0 <= k < j < removed@.len() ==> (#[trigger] removed@[k])@ != (
                    #[trigger] removed@[j])@,
            decreases entries@.len() - i,
        {
            let last: u128 = entries[i].1.last_activity;
            proof {
                lemma_place(entries@, i as int);
            }
            if now > last && now - last > STALE_CONNECTION_TIMEOUT {
                let ghost before = entries@;
                let ghost gone = removed@;
                proof {
                    lemma_drop(before, i as int);
                }
                let (name, _info) = entries.remove(i);
                removed.push(name);
                proof {
                    assert forall|id: Seq<char>| #[trigger] all.contains_key(id) implies as_map(
                        entries@,
                    ).contains_key(id) || exists|k: int|
                        0 <= k < removed@.len() && (#[trigger] removed@[k])@ == id by {
                        if id == name@ {
                            assert(removed@[gone.len() as int]@ == id);
                        } else if !as_map(before).contains_key(id) {
                            let k = choose|k: int|
                                0 <= k < gone.len() && (#[trigger] gone[k])@ == id;
                            assert(removed@[k]@ == id);
                        }
                    }
                    assert forall|k: int| 0 <= k < gone.len() implies (#[trigger] removed@[k])@
                        != name@ by {
                        assert(removed@[k] == gone[k]);
                    }
                }
            } else {
                i = i + 1;
            }
        }
        proof {
            assert forall|id: Seq<char>|
                (exists|k: int| 0 <= k < removed@.len() && (#[trigger] removed@[k])@ == id) <==> (
                all.contains_key(id) && stale(#[trigger] all[id].last_activity, now)) by {
                if all.contains_key(id) && stale(all[id].last_activity, now) {
                    if as_map(entries@).contains_key(id) {
                        let p = place(entries@, id);
                        assert(entries@[p].0@ == id);
                        assert(!stale(entries@[p].1.last_activity, now));
                    }
                }
            }
            assert forall|id: Seq<char>| #[trigger]
                as_map(entries@).contains_key(id) implies !stale(all[id].last_activity, now) by {
                let p = place(entries@, id);
                assert(entries@[p].0@ == id);
            }
            assert(as_map(entries@) =~= pruned(all, now));
        }
        self.entries = entries;
        removed
    }
}

proof fn lemma_place(entries: Seq<(String, TunnelInfo)>, i: int)
    requires
        distinct(entries),
        0 <= i < entries.len(),
    ensures
        as_map(entries).contains_key(entries[i].0@),
        as_map(entries)[entries[i].0@] == entries[i].1,
{
    let id = entries[i].0@;
    assert(holds(entries, id));
    let p = place(entries, id);
    assert(entries[p].0@ == id);
    assert(p == i);
}

proof fn lemma_same_map(a: Seq<(String, TunnelInfo)>, m: Map<Seq<char>, TunnelInfo>)
    requires
        distinct(a),
        forall|i: int|
            0 <= i < a.len() ==> m.contains_key((#[trigger] a[i]).0@) && m[a[i].0@] == a[i].1,
        forall|id: Seq<char>| #[trigger] m.contains_key(id) ==> holds(a, id),
    ensures
        as_map(a) == m,
{
    assert forall|id: Seq<char>| holds(a, id) implies #[trigger] m.contains_key(id) && m[id]
        == as_map(a)[id] by {
        let p = place(a, id);
        assert(a[p].0@ == id);
    }
    assert(as_map(a) =~= m);
}

proof fn lemma_replace(a: Seq<(String, TunnelInfo)>, i: int, e: (String, TunnelInfo))
    requires
        distinct(a),
        0 <= i < a.len(),
        a[i].0@ == e.0@,
    ensures
        distinct(a.update(i, e)),
        as_map(a.update(i, e)) == as_map(a).insert(e.0@, e.1),
{
    let b = a.update(i, e);
    let m = as_map(a).insert(e.0@, e.1);
    assert forall|k: int, j: int| 0 <= k < j < b.len() implies (#[trigger] b[k]).0@ != (
    #[trigger] b[j]).0@ by {
        assert(a[k].0@ != a[j].0@);
    }
    assert forall|k: int| 0 <= k < b.len() implies m.contains_key((#[trigger] b[k]).0@)
        && m[b[k].0@] == b[k].1 by {
        lemma_place(a, k);
        if k != i {
            assert(b[k].0@ != b[i].0@);
        }
    }
    assert forall|id: Seq<char>| #[trigger] m.contains_key(id) implies holds(b, id) by {
        if id == e.0@ {
            assert(b[i].0@ == id);
        } else {
            let p = place(a, id);
            assert(a[p].0@ == id);
            assert(b[p].0@ == id);
        }
    }
    lemma_same_map(b, m);
}

proof fn lemma_push(a: Seq<(String, TunnelInfo)>, e: (String, TunnelInfo))
    requires
        distinct(a),
        !holds(a, e.0@),
    ensures
        distinct(a.push(e)),
        as_map(a.push(e)) == as_map(a).insert(e.0@, e.1),
{
    let b = a.push(e);
    let m = as_map(a).insert(e.0@, e.1);
    assert forall|k: int| 0 <= k < b.len() implies m.contains_key((#[trigger] b[k]).0@)
        && m[b[k].0@] == b[k].1 by {
        if k < a.len() {
            lemma_place(a, k);
            assert(a[k].0@ != e.0@);
        }
    }
    assert forall|id: Seq<char>| #[trigger] m.contains_key(id) implies holds(b, id) by {
        if id == e.0@ {
            assert(b[a.len() as int].0@ == id);
        } else {
            let p = place(a, id);
            assert(a[p].0@ == id);
            assert(b[p].0@ == id);
        }
    }
    lemma_same_map(b, m);
}

proof fn lemma_drop(a: Seq<(String, TunnelInfo)>, i: int)
    requires
        distinct(a),
        0 <= i < a.len(),
    ensures
        distinct(a.remove(i)),
        as_map(a.remove(i)) == as_map(a).remove(a[i].0@),
{
    let b = a.remove(i);
    let m = as_map(a).remove(a[i].0@);
    assert forall|k: int| 0 <= k < b.len() implies m.contains_key((#[trigger] b[k]).0@)
        && m[b[k].0@] == b[k].1 by {
        let j = if k < i { k } else { k + 1 };
        assert(b[k] == a[j]);
        lemma_place(a, j);
        assert(a[i].0@ != a[j].0@);
    }
    assert forall|id: Seq<char>| #[trigger] m.contains_key(id) implies holds(b, id) by {
        let p = place(a, id);
        assert(a[p].0@ == id);
        assert(p != i);
        if p < i {
            assert(b[p].0@ == id);
        } else {
            assert(b[p - 1].0@ == id);
        }
    }
    lemma_same_map(b, m);
}

/// A tunnel stays in the book through a pruning exactly where it was in it and
/// has not been silent for longer than the timeout; what is known of it stays.
pub proof fn pruning_keeps_the_fresh(m: Map<Seq<char>, TunnelInfo>, id: Seq<char>, now: u128)
    ensures
        pruned(m, now).contains_key(id) <==> m.contains_key(id) && now - m[id].last_activity
            <= STALE_CONNECTION_TIMEOUT,
        pruned(m, now).contains_key(id) ==> pruned(m, now)[id] == m[id],
{
}

/// Activity keeps a tunnel in the book for the whole of the timeout that follows.
pub proof fn activity_prevents_pruning(
    m: Map<Seq<char>, TunnelInfo>,
    id: Seq<char>,
    heard: u128,
    now: u128,
)
    requires
        m.contains_key(id),
        now <= heard + STALE_CONNECTION_TIMEOUT,
    ensures
        pruned(touched(m, id, heard), now).contains_key(id),
        pruned(touched(m, id, heard), now)[id] == (TunnelInfo { last_activity: heard }),
{
}

/// A tunnel that was pruned does not come back by being active.
pub proof fn pruned_tunnels_stay_out(
    m: Map<Seq<char>, TunnelInfo>,
    id: Seq<char>,
    now: u128,
    later: u128,
)
    requires
        !pruned(m, now).contains_key(id),
    ensures
        touched(pruned(m, now), id, later) == pruned(m, now),
{
}

/// Pruning twice leaves what the later pruning alone would leave.
pub proof fn pruning_twice(m: Map<Seq<char>, TunnelInfo>, now: u128, later: u128)
    requires
        now <= later,
    ensures
        pruned(pruned(m, now), later) == pruned(m, later),
{
    assert(pruned(pruned(m, now), later) =~= pruned(m, later));
}

/// What is noted of a tunnel, or its removal, leaves every other tunnel alone.
pub proof fn tunnels_do_not_interfere(
    m: Map<Seq<char>, TunnelInfo>,
    id: Seq<char>,
    other: Seq<char>,
    now: u128,
)
    requires
        other != id,
    ensures
        touched(m, id, now).contains_key(other) == m.contains_key(other),
        m.remove(id).contains_key(other) == m.contains_key(other),
        m.contains_key(other) ==> touched(m, id, now)[other] == m[other] && m.remove(id)[other]
            == m[other],
{
}

/// A tunnel is stale exactly when it has been silent for more than two minutes.
pub proof fn stale_is_more_than_two_minutes(last: u128, now: u128)
    ensures
        stale(last, now) <==> now > last && now - last > 120_000_000_000,
{
}

/// Activity moves the time of a known tunnel to the moment of the activity, and a
/// tunnel that is not known stays so.
pub proof fn activity_is_noted(m: Map<Seq<char>, TunnelInfo>, id: Seq<char>, now: u128)
    ensures
        touched(m, id, now).contains_key(id) <==> m.contains_key(id),
        m.contains_key(id) ==> touched(m, id, now)[id].last_activity == now,
        !m.contains_key(id) ==> touched(m, id, now) == m,
{
}

/// A pruning takes away exactly the tunnels that have been silent for more than two
/// minutes, and changes nothing of the others.
pub proof fn pruning_takes_the_silent(m: Map<Seq<char>, TunnelInfo>, id: Seq<char>, now: u128)
    ensures
        pruned(m, now).contains_key(id) <==> m.contains_key(id) && !(now > m[id].last_activity
            && now - m[id].last_activity > 120_000_000_000),
        pruned(m, now).contains_key(id) ==> pruned(m, now)[id].last_activity
            == m[id].last_activity,
{
}

} // verus!
