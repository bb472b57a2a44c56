use vstd::prelude::*;

verus! {

/// The mathematical shape of one transient marker: a key, the recorded
/// value, and the time-to-live it was set with.
pub ghost struct MarkerModel {
    pub key: Seq<char>,
    pub value: Seq<char>,
    pub ttl_seconds: i64,
}

/// One transient marker as stored.
pub struct Marker {
    pub key: String,
    pub value: String,
    pub ttl_seconds: i64,
}

impl View for Marker {
    type V = MarkerModel;

    open spec fn view(&self) -> MarkerModel {
        MarkerModel { key: self.key@, value: self.value@, ttl_seconds: self.ttl_seconds }
    }
}

/// Some marker carries this key.
pub open spec fn has_key(s: Seq<MarkerModel>, key: Seq<char>) -> bool {
    exists|i: int| 0 <= i < s.len() && s[i].key == key
}

/// An index of a marker carrying this key (the index, once keys are
/// pairwise distinct).
pub open spec fn idx_of_key(s: Seq<MarkerModel>, key: Seq<char>) -> int {
    choose|i: int| 0 <= i < s.len() && s[i].key == key
}

/// The marker carrying this key (meaningful when `has_key` holds).
pub open spec fn marker_of_key(s: Seq<MarkerModel>, key: Seq<char>) -> MarkerModel {
    s[idx_of_key(s, key)]
}

/// Keys are pairwise distinct: at most one marker per key.
pub open spec fn keys_unique(s: Seq<MarkerModel>) -> bool {
    forall|i: int, j: int| 0 <= i < j < s.len() ==> s[i].key != s[j].key
}

/// What storing a marker does to the store's contents: it replaces the
/// marker carrying the same key, or appends when the key is new.
pub open spec fn upsert(s: Seq<MarkerModel>, m: MarkerModel) -> Seq<MarkerModel> {
    if has_key(s, m.key) {
        s.update(idx_of_key(s, m.key), m)
    } else {
        s.push(m)
    }
}

/// Storing a marker keeps keys pairwise distinct, and afterwards the key
/// carries exactly the stored marker.
pub proof fn lemma_upsert(s: Seq<MarkerModel>, m: MarkerModel)
    requires
        keys_unique(s),
    ensures
        keys_unique(upsert(s, m)),
        has_key(upsert(s, m), m.key),
        marker_of_key(upsert(s, m), m.key) == m,
{
    let t = upsert(s, m);
    if has_key(s, m.key) {
        let k = idx_of_key(s, m.key);
        assert(0 <= k < s.len() && s[k].key == m.key);
        assert forall|i: int, j: int| 0 <= i < j < t.len() implies t[i].key != t[j].key by {
            if i != k && j != k {
                assert(t[i] == s[i] && t[j] == s[j]);
            }
        }
        assert(t[k].key == m.key);
    } else {
        assert forall|i: int, j: int| 0 <= i < j < t.len() implies t[i].key != t[j].key by {
            if j == s.len() {
                assert(t[i] == s[i]);
            }
        }
        assert(t[s.len() as int].key == m.key);
    }
    let w = idx_of_key(t, m.key);
    assert(0 <= w < t.len() && t[w].key == m.key);
    let k0: int = if has_key(s, m.key) {
        idx_of_key(s, m.key)
    } else {
        s.len() as int
    };
    if w != k0 {
        assert(t[w].key != t[k0].key);
    }
}

/// The narrow interface of the transient marker store: a key/value store
/// with per-key expiry, written during verification and never read back by
/// the lifecycle service.
pub trait MarkerStore: Sized {
    /// The markers the store holds, in insertion order.
    /// The default stands for stores outside this crate, whose contents
    /// nothing here reasons about; a verified store overrides it.
    open spec fn markers(&self) -> Seq<MarkerModel> {
        Seq::empty()
    }

    /// Records `value` under `key` with the given time-to-live, replacing
    /// whatever the key held. `false` is the store failing the write:
    /// nothing changed.
    fn set_with_expiry(&mut self, key: String, value: String, ttl_seconds: i64) -> (r: bool)
        requires
            keys_unique(old(self).markers()),
        ensures
            r ==> final(self).markers() == upsert(
                old(self).markers(),
                MarkerModel { key: key@, value: value@, ttl_seconds: ttl_seconds },
            ),
            !r ==> final(self).markers() == old(self).markers(),
            keys_unique(final(self).markers()),
    ;
}

/// The substitutable in-memory marker store.
pub struct MemMarkerStore {
    entries: Vec<Marker>,
}

impl MemMarkerStore {
    /// An empty store.
    pub fn new() -> (r: MemMarkerStore)
        ensures
            r.markers() == Seq::<MarkerModel>::empty(),
    {
        let r = MemMarkerStore { entries: Vec::new() };
        proof {
            assert(r.markers() =~= Seq::<MarkerModel>::empty());
        }
        r
    }

    /// The value and time-to-live recorded under this key, if any.
    pub fn find(&self, key: &String) -> (r: Option<(String, i64)>)
        requires
            keys_unique(self.markers()),
        ensures
            (r is Some) == has_key(self.markers(), key@),
            r is Some ==> r.unwrap().0@ == marker_of_key(self.markers(), key@).value
                && r.unwrap().1 == marker_of_key(self.markers(), key@).ttl_seconds,
    {
        let n = self.entries.len();
        let mut i: usize = 0;
        while i < n
            invariant
                n == self.entries.len(),
                i <= n,
                keys_unique(self.markers()),
                forall|j: int| 0 <= j < i ==> self.markers()[j].key != key@,
            decreases n - i,
        {
            if self.entries[i].key == *key {
                proof {
                    lemma_unique_key_found(self.markers(), key@, i as int);
                }
                return Some((self.entries[i].value.clone(), self.entries[i].ttl_seconds));
            }
            i += 1;
        }
        None
    }
}

impl MarkerStore for MemMarkerStore {
    closed spec fn markers(&self) -> Seq<MarkerModel> {
        self.entries@.map_values(|m: Marker| m@)
    }

    fn set_with_expiry(&mut self, key: String, value: String, ttl_seconds: i64) -> (r: bool)
        ensures
            r,
    {
        let ghost m = MarkerModel { key: key@, value: value@, ttl_seconds: ttl_seconds };
        proof {
            lemma_upsert(old(self).markers(), m);
        }
        let n = self.entries.len();
        let mut i: usize = 0;
        while i < n
            invariant
                n == self.entries.len(),
                i <= n,
                keys_unique(self.markers()),
                self == old(self),
                m == (MarkerModel { key: key@, value: value@, ttl_seconds: ttl_seconds }),
                forall|j: int| 0 <= j < i ==> self.markers()[j].key != key@,
            decreases n - i,
        {
            if self.entries[i].key == key {
                proof {
                    lemma_unique_key_found(self.markers(), key@, i as int);
                }
                self.entries[i] = Marker { key: key, value: value, ttl_seconds: ttl_seconds };
                proof {
                    let s0 = old(self).markers();
                    assert(has_key(s0, m.key));
                    assert(idx_of_key(s0, m.key) == i as int);
                    assert(self.markers().len() == upsert(s0, m).len());
                    assert forall|j: int| 0 <= j < self.markers().len() implies self.markers()[j]
                        == upsert(s0, m)[j] by {
                        if j == i as int {
                            assert(self.markers()[j] == m);
                        } else {
                            assert(self.markers()[j] == s0[j]);
                        }
                    }
                    assert(self.markers() =~= upsert(s0, m));
                }
                return true;
            }
            i += 1;
        }
        self.entries.push(Marker { key: key, value: value, ttl_seconds: ttl_seconds });
        proof {
            assert(self.markers() =~= upsert(old(self).markers(), m));
        }
        true
    }
}

/// When keys are pairwise distinct and the marker at `k` carries the key,
/// `k` is the index the spec helpers name.
proof fn lemma_unique_key_found(s: Seq<MarkerModel>, key: Seq<char>, k: int)
    requires
        keys_unique(s),
        0 <= k < s.len(),
        s[k].key == key,
    ensures
        has_key(s, key),
        idx_of_key(s, key) == k,
        marker_of_key(s, key) == s[k],
{
    assert(has_key(s, key));
    let w = idx_of_key(s, key);
    assert(0 <= w < s.len() && s[w].key == key);
    if w != k {
        assert(s[w].key != s[k].key);
    }
}

} // verus!
