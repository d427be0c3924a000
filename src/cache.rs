//! The process-wide cache of live authorizations, keyed by key id.
use vstd::prelude::*;

verus! {

/// An authorization handle, with the time (in seconds) at which it was obtained.
#[derive(Debug)]
pub struct TimestampedAuthorization<H> {
    pub authorization: H,
    pub creation_time: u64,
}

impl<H> TimestampedAuthorization<H> {
    pub fn new(authorization: H, creation_time: u64) -> (r: Self)
        ensures
            r == (TimestampedAuthorization { authorization, creation_time }),
    {
        TimestampedAuthorization { authorization, creation_time }
    }
}

/// At most one authorization per key id; a new one for a known key id replaces the old.
pub struct AuthorizationCache<H> {
    entries: Vec<(String, TimestampedAuthorization<H>)>,
    contents: Ghost<Map<Seq<char>, TimestampedAuthorization<H>>>,
}

impl<H> View for AuthorizationCache<H> {
    type V = Map<Seq<char>, TimestampedAuthorization<H>>;

    closed spec fn view(&self) -> Self::V {
        self.contents@
    }
}

impl<H> AuthorizationCache<H> {
    /// The entries have distinct keys, and the map holds exactly them.
    pub closed spec fn wf(&self) -> bool {
        let e = self.entries@;
        let m = self.contents@;
        &&& forall|i: int, j: int| 0 <= i < j < e.len() ==> e[i].0@ != e[j].0@
        &&& forall|i: int|
            0 <= i < e.len() ==> m.contains_key((#[trigger] e[i]).0@) && m[e[i].0@] == e[i].1
        &&& forall|k: Seq<char>|
            #[trigger] m.contains_key(k) ==> exists|i: int| 0 <= i < e.len() && e[i].0@ == k
    }

    pub fn new() -> (r: Self)
        ensures
            r.wf(),
            r@ == Map::<Seq<char>, TimestampedAuthorization<H>>::empty(),
    {
        AuthorizationCache { entries: Vec::new(), contents: Ghost(Map::empty()) }
    }

    fn position(&self, key: &String) -> (r: Option<usize>)
        requires
            self.wf(),
        ensures
            match r {
                Some(i) => i < self.entries@.len() && self.entries@[i as int].0@ == key@,
                None => !self@.contains_key(key@),
            },
    {
        let mut i: usize = 0;
        while i < self.entries.len()
            invariant
                self.wf(),
                i <= self.entries@.len(),
                forall|j: int| 0 <= j < i ==> (#[trigger] self.entries@[j]).0@ != key@,
            decreases self.entries@.len() - i,
        {
            if self.entries[i].0 == *key {
                return Some(i);
            }
            i = i + 1;
        }
        None
    }

    /// Whether an authorization for this key id is held.
    pub fn contains_key(&self, key: &String) -> (r: bool)
        requires
            self.wf(),
        ensures
            r == self@.contains_key(key@),
    {
        self.position(key).is_some()
    }

    /// How many key ids hold an authorization.
    pub fn len(&self) -> (r: usize)
        requires
            self.wf(),
        ensures
            r == self@.len(),
    {
        let ghost e = self.entries@;
        let ghost ks = e.map_values(|p: (String, TimestampedAuthorization<H>)| p.0@);
        proof {
            assert forall|i: int, j: int|
                0 <= i < ks.len() && 0 <= j < ks.len() && i != j implies ks[i] != ks[j] by {
                if i < j {
                    assert(e[i].0@ != e[j].0@);
                } else {
                    assert(e[j].0@ != e[i].0@);
                }
            }
            assert forall|k: Seq<char>| #[trigger] self@.contains_key(k) <==> ks.to_set().contains(k) by {
                if self@.contains_key(k) {
                    let i = choose|i: int| 0 <= i < e.len() && e[i].0@ == k;
                    assert(ks[i] == k);
                }
                if ks.to_set().contains(k) {
                    let i = choose|i: int| 0 <= i < ks.len() && ks[i] == k;
                    assert(self@.contains_key(e[i].0@));
                }
            }
            assert(self@.dom() =~= ks.to_set());
            ks.unique_seq_to_set();
        }
        self.entries.len()
    }

    /// Stores the authorization for `key`, discarding any earlier one for it.
    pub fn insert(&mut self, key: String, auth: TimestampedAuthorization<H>)
        requires
            old(self).wf(),
        ensures
            final(self).wf(),
            final(self)@ == old(self)@.insert(key@, auth),
    {
        let ghost k = key@;
        let ghost m = self.contents@.insert(k, auth);
        match self.position(&key) {
            Some(p) => {
                self.entries.set(p, (key, auth));
                self.contents = Ghost(m);
                assert forall|k2: Seq<char>| #[trigger] m.contains_key(k2) implies exists|i: int|
                    0 <= i < self.entries@.len() && self.entries@[i].0@ == k2 by {
                    if k2 != k {
                        let i = choose|i: int| 0 <= i < old(self).entries@.len() && old(self).entries@[i].0@ == k2;
                        assert(self.entries@[i] == old(self).entries@[i]);
                    } else {
                        assert(self.entries@[p as int].0@ == k2);
                    }
                }
            },
            None => {
                self.entries.push((key, auth));
                self.contents = Ghost(m);
                assert forall|k2: Seq<char>| #[trigger] m.contains_key(k2) implies exists|i: int|
                    0 <= i < self.entries@.len() && self.entries@[i].0@ == k2 by {
                    if k2 != k {
                        let i = choose|i: int| 0 <= i < old(self).entries@.len() && old(self).entries@[i].0@ == k2;
                        assert(self.entries@[i] == old(self).entries@[i]);
                    } else {
                        assert(self.entries@[old(self).entries@.len() as int].0@ == k2);
                    }
                }
            },
        }
    }
}

/// Storing two authorizations for one key id leaves one entry for it, holding the later one.
pub proof fn insert_same_key_keeps_one_entry<H>(
    m: Map<Seq<char>, TimestampedAuthorization<H>>,
    k: Seq<char>,
    a: TimestampedAuthorization<H>,
    b: TimestampedAuthorization<H>,
)
    ensures
        m.insert(k, a).insert(k, b) == m.insert(k, b),
        m.insert(k, a).insert(k, b).dom() == m.dom().insert(k),
{
    assert(m.insert(k, a).insert(k, b) =~= m.insert(k, b));
}

/// Authorizations stored for distinct key ids do not disturb one another: in either order,
/// each key id ends with its own entry, and the rest of the cache is unchanged.
pub proof fn inserts_for_distinct_keys_commute<H>(
    m: Map<Seq<char>, TimestampedAuthorization<H>>,
    k1: Seq<char>,
    a: TimestampedAuthorization<H>,
    k2: Seq<char>,
    b: TimestampedAuthorization<H>,
)
    requires
        k1 != k2,
    ensures
        m.insert(k1, a).insert(k2, b) == m.insert(k2, b).insert(k1, a),
        m.insert(k1, a).insert(k2, b)[k1] == a,
        m.insert(k1, a).insert(k2, b)[k2] == b,
        forall|k: Seq<char>|
            k != k1 && k != k2 ==> #[trigger] m.insert(k1, a).insert(k2, b).contains_key(k)
                == m.contains_key(k),
{
    assert(m.insert(k1, a).insert(k2, b) =~= m.insert(k2, b).insert(k1, a));
}

} // verus!
