//! A table keyed by (connection id, session id), as the daemon keeps its tunnel sessions
//! and file transfers.
use vstd::prelude::*;

verus! {

/// A connection id (a ULID, as the 128-bit number it stands for) and a session id.
pub type SessionKey = (u128, u32);

/// A table from `(connection id, session id)` to values, each key at most once.
#[derive(Debug)]
pub struct KeyedTable<V> {
    entries: Vec<(SessionKey, V)>,
}

/// Whether no key occurs twice in `s`.
pub open spec fn keys_unique<V>(s: Seq<(SessionKey, V)>) -> bool {
    forall|i: int, j: int| 0 <= i < j < s.len() ==> s[i].0 != s[j].0
}

/// Whether `k` is the key of some entry of `s`.
pub open spec fn has_key<V>(s: Seq<(SessionKey, V)>, k: SessionKey) -> bool {
    exists|i: int| 0 <= i < s.len() && s[i].0 == k
}

/// The map that the entries `s` stand for.
pub open spec fn entries_map<V>(s: Seq<(SessionKey, V)>) -> Map<SessionKey, V> {
    Map::new(
        |k: SessionKey| has_key(s, k),
        |k: SessionKey| s[choose|i: int| 0 <= i < s.len() && s[i].0 == k].1,
    )
}

/// In a table without repeated keys, each entry is what the map holds for its key.
pub proof fn lemma_entries_map_at<V>(s: Seq<(SessionKey, V)>, i: int)
    requires
        keys_unique(s),
        0 <= i < s.len(),
    ensures
        entries_map(s).contains_key(s[i].0),
        entries_map(s)[s[i].0] == s[i].1,
{
    let k = s[i].0;
    assert(has_key(s, k));
    let j = choose|j: int| 0 <= j < s.len() && s[j].0 == k;
    if j != i {
        if j < i {
            assert(s[j].0 != s[i].0);
        } else {
            assert(s[i].0 != s[j].0);
        }
    }
}

/// The keys of the entries of `s` that `marks` marks.
pub open spec fn marked_keys<V>(s: Seq<(SessionKey, V)>, marks: Seq<bool>) -> Set<SessionKey> {
    Set::new(|k: SessionKey| exists|i: int| 0 <= i < s.len() && marks[i] && s[i].0 == k)
}

/// `m` without the keys in `ks`.
pub open spec fn without_keys<V>(m: Map<SessionKey, V>, ks: Set<SessionKey>) -> Map<SessionKey, V> {
    m.remove_keys(ks)
}

/// The keys of `m` whose connection id is `cid`.
pub open spec fn keys_of_connection<V>(m: Map<SessionKey, V>, cid: u128) -> Set<SessionKey> {
    Set::new(|k: SessionKey| m.contains_key(k) && k.0 == cid)
}

impl<V> View for KeyedTable<V> {
    type V = Map<SessionKey, V>;

    closed spec fn view(&self) -> Map<SessionKey, V> {
        entries_map(self.entries@)
    }
}

impl<V> KeyedTable<V> {
    /// Whether no key occurs twice.
    pub closed spec fn wf(&self) -> bool {
        keys_unique(self.entries@)
    }

    /// The entries, in the order the table keeps them.
    pub closed spec fn entries(&self) -> Seq<(SessionKey, V)> {
        self.entries@
    }

    /// The table's map is the map its entries stand for.
    pub proof fn lemma_view_entries(&self)
        ensures
            self@ == entries_map(self.entries()),
            self.wf() == keys_unique(self.entries()),
    {
    }

    /// An empty table.
    pub fn new() -> (r: KeyedTable<V>)
        ensures
            r.wf(),
            r@ == Map::<SessionKey, V>::empty(),
    {
        let r = KeyedTable { entries: Vec::new() };
        assert(r@ =~= Map::<SessionKey, V>::empty());
        r
    }

    /// The number of entries.
    pub fn len(&self) -> (r: usize)
        requires
            self.wf(),
        ensures
            r == self.entries().len(),
            r == self@.len(),
    {
        proof {
            self.lemma_len();
        }
        self.entries.len()
    }

    /// The map holds one key per entry.
    proof fn lemma_len(&self)
        requires
            self.wf(),
        ensures
            self@.len() == self.entries@.len(),
        decreases self.entries@.len(),
    {
        let s = self.entries@;
        let f = |i: int| s[i].0;
        let idx = Set::new(|i: int| 0 <= i < s.len());
        assert(self@.dom() =~= idx.map(f)) by {
            assert forall|k: SessionKey| self@.dom().contains(k) implies idx.map(f).contains(k) by {
                let i = choose|i: int| 0 <= i < s.len() && s[i].0 == k;
                assert(idx.contains(i));
            }
        }
        vstd::set_lib::lemma_int_range(0, s.len() as int);
        assert(idx =~= vstd::set_lib::set_int_range(0, s.len() as int));
        assert forall|a: int, b: int| idx.contains(a) && idx.contains(b) && f(a) == f(b) implies a == b by {
            if a < b {
                assert(s[a].0 != s[b].0);
            } else if b < a {
                assert(s[b].0 != s[a].0);
            }
        }
        vstd::set_lib::lemma_map_size(idx, idx.map(f), f);
    }

    /// The entry at position `i`.
    pub fn entry(&self, i: usize) -> (r: &(SessionKey, V))
        requires
            self.wf(),
            i < self.entries().len(),
        ensures
            *r == self.entries()[i as int],
            self@.contains_key(r.0),
            self@[r.0] == r.1,
    {
        proof {
            lemma_entries_map_at(self.entries@, i as int);
        }
        &self.entries[i]
    }

    /// The position of `(cid, sid)`, where it is present.
    fn position(&self, cid: u128, sid: u32) -> (r: Option<usize>)
        requires
            self.wf(),
        ensures
            match r {
                Some(i) => i < self.entries@.len() && self.entries@[i as int].0 == (cid, sid),
                None => !has_key(self.entries@, (cid, sid)),
            },
    {
        let mut i: usize = 0;
        while i < self.entries.len()
            invariant
                0 <= i <= self.entries@.len(),
                forall|j: int| 0 <= j < i ==> self.entries@[j].0 != (cid, sid),
            decreases self.entries@.len() - i,
        {
            if self.entries[i].0.0 == cid && self.entries[i].0.1 == sid {
                return Some(i);
            }
            i = i + 1;
        }
        None
    }

    /// The value stored under `(cid, sid)`.
    pub fn get(&self, cid: u128, sid: u32) -> (r: Option<&V>)
        requires
            self.wf(),
        ensures
            match r {
                Some(v) => self@.contains_key((cid, sid)) && *v == self@[(cid, sid)],
                None => !self@.contains_key((cid, sid)),
            },
    {
        match self.position(cid, sid) {
            Some(i) => {
                proof {
                    lemma_entries_map_at(self.entries@, i as int);
                }
                Some(&self.entries[i].1)
            },
            None => None,
        }
    }

    /// Removes the entry at position `i`, giving it back.
    fn take_at(&mut self, i: usize) -> (r: (SessionKey, V))
        requires
            old(self).wf(),
            i < old(self).entries@.len(),
        ensures
            final(self).wf(),
            r == old(self).entries@[i as int],
            final(self)@ == old(self)@.remove(r.0),
            final(self).entries@ == old(self).entries@.remove(i as int),
    {
        let ghost s = self.entries@;
        proof {
            lemma_entries_map_at(s, i as int);
        }
        let r = self.entries.remove(i);
        let ghost t = self.entries@;
        assert(t =~= s.remove(i as int));
        assert forall|a: int, b: int| 0 <= a < b < t.len() implies t[a].0 != t[b].0 by {
            let a2 = if a < i { a } else { a + 1 };
            let b2 = if b < i { b } else { b + 1 };
            assert(t[a] == s[a2]);
            assert(t[b] == s[b2]);
        }
        assert(self@ =~= entries_map(s).remove(r.0)) by {
            assert forall|k: SessionKey| #![auto] self@.contains_key(k) <==> entries_map(s).remove(r.0).contains_key(k) by {
                if has_key(t, k) {
                    let a = choose|a: int| 0 <= a < t.len() && t[a].0 == k;
                    let a2 = if a < i { a } else { a + 1 };
                    assert(s[a2].0 == k);
                    assert(a2 != i);
                    assert(has_key(s, k));
                    if k == r.0 {
                        if a2 < i {
                            assert(s[a2].0 != s[i as int].0);
                        } else {
                            assert(s[i as int].0 != s[a2].0);
                        }
                    }
                }
                if has_key(s, k) && k != r.0 {
                    let a = choose|a: int| 0 <= a < s.len() && s[a].0 == k;
                    assert(a != i);
                    let a2 = if a < i { a } else { a - 1 };
                    assert(t[a2].0 == k);
                }
            }
            assert forall|k: SessionKey| #[trigger] self@.contains_key(k) implies self@[k]
                == entries_map(s)[k] by {
                let a = choose|a: int| 0 <= a < t.len() && t[a].0 == k;
                let a2 = if a < i { a } else { a + 1 };
                assert(t[a] == s[a2]);
                lemma_entries_map_at(t, a);
                lemma_entries_map_at(s, a2);
            }
        }
        r
    }

    /// Removes the entry under `(cid, sid)`, giving back its value.
    pub fn remove(&mut self, cid: u128, sid: u32) -> (r: Option<V>)
        requires
            old(self).wf(),
        ensures
            final(self).wf(),
            final(self)@ == old(self)@.remove((cid, sid)),
            match r {
                Some(v) => old(self)@.contains_key((cid, sid)) && v == old(self)@[(cid, sid)],
                None => !old(self)@.contains_key((cid, sid)),
            },
    {
        match self.position(cid, sid) {
            Some(i) => {
                proof {
                    lemma_entries_map_at(self.entries@, i as int);
                }
                let (_, v) = self.take_at(i);
                Some(v)
            },
            None => {
                assert(self@ =~= self@.remove((cid, sid)));
                None
            },
        }
    }

    /// Stores `v` under `(cid, sid)`, giving back the value it replaces.
    pub fn insert(&mut self, cid: u128, sid: u32, v: V) -> (r: Option<V>)
        requires
            old(self).wf(),
        ensures
            final(self).wf(),
            final(self)@ == old(self)@.insert((cid, sid), v),
            match r {
                Some(p) => old(self)@.contains_key((cid, sid)) && p == old(self)@[(cid, sid)],
                None => !old(self)@.contains_key((cid, sid)),
            },
    {
        let previous = self.remove(cid, sid);
        let ghost s = self.entries@;
        assert(!self@.contains_key((cid, sid)));
        assert(!has_key(s, (cid, sid)));
        self.entries.push(((cid, sid), v));
        let ghost t = self.entries@;
        proof {
            assert forall|a: int, b: int| 0 <= a < b < t.len() implies t[a].0 != t[b].0 by {
                if b == s.len() {
                    assert(s[a].0 != (cid, sid));
                } else {
                    assert(t[a] == s[a] && t[b] == s[b]);
                }
            }
            lemma_entries_map_at(t, s.len() as int);
            assert forall|k: SessionKey| #![auto] has_key(t, k) <==> (has_key(s, k) || k == (cid, sid)) by {
                if has_key(s, k) {
                    let a = choose|a: int| 0 <= a < s.len() && s[a].0 == k;
                    assert(t[a] == s[a]);
                }
                if has_key(t, k) && k != (cid, sid) {
                    let a = choose|a: int| 0 <= a < t.len() && t[a].0 == k;
                    assert(a < s.len());
                    assert(s[a] == t[a]);
                }
            }
            assert forall|k: SessionKey| #[trigger] has_key(s, k) implies entries_map(t)[k]
                == entries_map(s)[k] by {
                let a = choose|a: int| 0 <= a < s.len() && s[a].0 == k;
                assert(t[a] == s[a]);
                lemma_entries_map_at(t, a);
                lemma_entries_map_at(s, a);
            }
            assert(self@ =~= entries_map(s).insert((cid, sid), v));
        }
        previous
    }

    /// Removes the entries that `marks` marks, position by position, giving them back.
    pub(crate) fn remove_marked(&mut self, marks: &Vec<bool>) -> (removed: Vec<(SessionKey, V)>)
        requires
            old(self).wf(),
            marks@.len() == old(self).entries().len(),
        ensures
            final(self).wf(),
            final(self)@ == without_keys(old(self)@, marked_keys(old(self).entries(), marks@)),
            forall|j: int|
                0 <= j < removed@.len() ==> old(self)@.contains_key(#[trigger] removed@[j].0)
                    && old(self)@[removed@[j].0] == removed@[j].1 && marked_keys(
                    old(self).entries(),
                    marks@,
                ).contains(removed@[j].0),
            forall|k: SessionKey|
                marked_keys(old(self).entries(), marks@).contains(k) ==> has_key(removed@, k),
            keys_unique(removed@),
    {
        let ghost s0 = self.entries@;
        let ghost m0 = self@;
        let ghost ks = marked_keys(s0, marks@);
        let mut removed: Vec<(SessionKey, V)> = Vec::new();
        let mut i: usize = 0;
        let mut pos: usize = 0;
        while pos < marks.len()
            invariant
                marks@.len() == s0.len(),
                keys_unique(s0),
                m0 == entries_map(s0),
                ks == marked_keys(s0, marks@),
                0 <= i <= pos <= s0.len(),
                keys_unique(self.entries@),
                self.entries@.len() == i + (s0.len() - pos),
                forall|a: int| 0 <= a < i ==> !ks.contains(#[trigger] self.entries@[a].0),
                forall|a: int| 0 <= a < i ==> has_key(s0, #[trigger] self.entries@[a].0),
                forall|a: int| 0 <= a < i ==> m0[#[trigger] self.entries@[a].0] == self.entries@[a].1,
                forall|a: int| pos <= a < s0.len() ==> self.entries@[a - pos + i] == #[trigger] s0[a],
                forall|a: int| 0 <= a < pos && !marks@[a] ==> has_key(self.entries@, #[trigger] s0[a].0),
                forall|a: int| 0 <= a < pos && marks@[a] ==> has_key(removed@, #[trigger] s0[a].0),
                forall|j: int|
                    0 <= j < removed@.len() ==> ks.contains(#[trigger] removed@[j].0) && m0.contains_key(
                        removed@[j].0,
                    ) && m0[removed@[j].0] == removed@[j].1,
                forall|j: int| 0 <= j < removed@.len() ==> exists|a: int| 0 <= a < pos && s0[a].0 == #[trigger] removed@[j].0,
                keys_unique(removed@),
            decreases s0.len() - pos,
        {
            let ghost before = self.entries@;
            let ghost removed_before = removed@;
            proof {
                lemma_entries_map_at(s0, pos as int);
                assert(before[i as int] == s0[pos as int]);
            }
            if marks[pos] {
                let e = self.entries.remove(i);
                proof {
                    assert(e == s0[pos as int]);
                    assert(ks.contains(e.0)) by {
                        assert(0 <= pos < s0.len() && marks@[pos as int] && s0[pos as int].0 == e.0);
                    }
                }
                removed.push(e);
                proof {
                    let t = self.entries@;
                    assert(t =~= before.remove(i as int));
                    assert forall|a: int, b: int| 0 <= a < b < t.len() implies t[a].0 != t[b].0 by {
                        let a2 = if a < i { a } else { a + 1 };
                        let b2 = if b < i { b } else { b + 1 };
                        assert(t[a] == before[a2]);
                        assert(t[b] == before[b2]);
                    }
                    assert forall|a: int| pos + 1 <= a < s0.len() implies self.entries@[a - (pos + 1) + i] == #[trigger] s0[a] by {
                        assert(before[a - pos + i] == s0[a]);
                    }
                    assert forall|a: int| 0 <= a < pos + 1 && !marks@[a] implies has_key(self.entries@, #[trigger] s0[a].0) by {
                        let w = choose|w: int| 0 <= w < before.len() && before[w].0 == s0[a].0;
                        if w == i {
                            assert(before[i as int].0 == s0[pos as int].0);
                            assert(a != pos);
                            assert(s0[a].0 != s0[pos as int].0);
                        }
                        let w2 = if w < i { w } else { w - 1 };
                        assert(t[w2] == before[w]);
                    }
                    assert forall|a: int| 0 <= a < pos + 1 && marks@[a] implies has_key(removed@, #[trigger] s0[a].0) by {
                        if a == pos {
                            assert(removed@[removed@.len() - 1].0 == s0[a].0);
                        } else {
                            let w = choose|w: int| 0 <= w < removed_before.len() && removed_before[w].0 == s0[a].0;
                            assert(removed@[w] == removed_before[w]);
                        }
                    }
                    assert forall|j: int| 0 <= j < removed@.len() implies exists|a: int| 0 <= a < pos + 1 && s0[a].0 == #[trigger] removed@[j].0 by {
                        if j == removed@.len() - 1 {
                            assert(s0[pos as int].0 == removed@[j].0);
                        } else {
                            assert(removed@[j] == removed_before[j]);
                            let a = choose|a: int| 0 <= a < pos && s0[a].0 == removed_before[j].0;
                            assert(s0[a].0 == removed@[j].0);
                        }
                    }
                    assert forall|x: int, y: int| 0 <= x < y < removed@.len() implies removed@[x].0 != removed@[y].0 by {
                        if y == removed@.len() - 1 {
                            let a = choose|a: int| 0 <= a < pos && s0[a].0 == removed_before[x].0;
                            assert(removed@[x] == removed_before[x]);
                            assert(s0[a].0 != s0[pos as int].0);
                        } else {
                            assert(removed@[x] == removed_before[x]);
                            assert(removed@[y] == removed_before[y]);
                        }
                    }
                    assert forall|a: int| 0 <= a < i implies self.entries@[a] == #[trigger] before[a] by {}
                }
            } else {
                i = i + 1;
                proof {
                    assert(!ks.contains(s0[pos as int].0)) by {
                        if ks.contains(s0[pos as int].0) {
                            let a = choose|a: int| 0 <= a < s0.len() && marks@[a] && s0[a].0 == s0[pos as int].0;
                            if a != pos {
                                if a < pos {
                                    assert(s0[a].0 != s0[pos as int].0);
                                } else {
                                    assert(s0[pos as int].0 != s0[a].0);
                                }
                            }
                        }
                    }
                    assert forall|a: int| 0 <= a < pos + 1 && !marks@[a] implies has_key(self.entries@, #[trigger] s0[a].0) by {
                        if a == pos {
                            assert(self.entries@[i - 1].0 == s0[a].0);
                        }
                    }
                    assert forall|j: int| 0 <= j < removed@.len() implies exists|a: int| 0 <= a < pos + 1 && s0[a].0 == #[trigger] removed@[j].0 by {
                        let a = choose|a: int| 0 <= a < pos && s0[a].0 == removed@[j].0;
                        assert(0 <= a < pos + 1);
                    }
                }
            }
            pos = pos + 1;
        }
        proof {
            let t = self.entries@;
            assert(i == t.len());
            assert(self@ =~= without_keys(m0, ks)) by {
                assert forall|k: SessionKey| #![auto] self@.contains_key(k) <==> without_keys(m0, ks).contains_key(k) by {
                    if has_key(t, k) {
                        let a = choose|a: int| 0 <= a < t.len() && t[a].0 == k;
                        assert(!ks.contains(t[a].0));
                        assert(has_key(s0, t[a].0));
                    }
                    if m0.contains_key(k) && !ks.contains(k) {
                        let a = choose|a: int| 0 <= a < s0.len() && s0[a].0 == k;
                        if marks@[a] {
                            assert(ks.contains(k));
                        }
                        assert(has_key(t, s0[a].0));
                    }
                }
                assert forall|k: SessionKey| #[trigger] self@.contains_key(k) implies self@[k] == m0[k] by {
                    let a = choose|a: int| 0 <= a < t.len() && t[a].0 == k;
                    lemma_entries_map_at(t, a);
                }
            }
            assert forall|k: SessionKey| ks.contains(k) implies has_key(removed@, k) by {
                let a = choose|a: int| 0 <= a < s0.len() && marks@[a] && s0[a].0 == k;
            }
        }
        removed
    }

    /// Removes every entry of connection `cid`, giving them back.
    pub fn remove_for_cid(&mut self, cid: u128) -> (removed: Vec<(SessionKey, V)>)
        requires
            old(self).wf(),
        ensures
            final(self).wf(),
            final(self)@ == without_keys(old(self)@, keys_of_connection(old(self)@, cid)),
            forall|j: int|
                0 <= j < removed@.len() ==> old(self)@.contains_key(#[trigger] removed@[j].0)
                    && old(self)@[removed@[j].0] == removed@[j].1 && removed@[j].0.0 == cid,
            forall|k: SessionKey|
                #![trigger keys_of_connection(old(self)@, cid).contains(k)]
                keys_of_connection(old(self)@, cid).contains(k) ==> has_key(removed@, k),
            keys_unique(removed@),
    {
        let mut marks: Vec<bool> = Vec::new();
        let mut i: usize = 0;
        while i < self.entries.len()
            invariant
                0 <= i <= self.entries@.len(),
                marks@.len() == i,
                forall|j: int| 0 <= j < i ==> marks@[j] == (self.entries@[j].0.0 == cid),
            decreases self.entries@.len() - i,
        {
            marks.push(self.entries[i].0.0 == cid);
            i = i + 1;
        }
        let ghost s0 = self.entries@;
        let ghost m0 = self@;
        proof {
            assert(marked_keys(s0, marks@) =~= keys_of_connection(m0, cid)) by {
                assert forall|k: SessionKey| marked_keys(s0, marks@).contains(k) <==> keys_of_connection(m0, cid).contains(k) by {
                    if keys_of_connection(m0, cid).contains(k) {
                        let a = choose|a: int| 0 <= a < s0.len() && s0[a].0 == k;
                        assert(marks@[a]);
                    }
                }
            }
        }
        self.remove_marked(&marks)
    }
}

} // verus!
