//! The connection registry: one outbound channel per live connection.

use vstd::prelude::*;

verus! {

/// The ids of `ids` that a broadcast reaches: all but `exclude`.
pub open spec fn recipient_ids(ids: Seq<u64>, exclude: Option<u64>) -> Seq<u64>
    decreases ids.len(),
{
    if ids.len() == 0 {
        Seq::empty()
    } else {
        let rest = recipient_ids(ids.drop_last(), exclude);
        if exclude == Some(ids.last()) {
            rest
        } else {
            rest.push(ids.last())
        }
    }
}

/// In a sequence without repeats, an element's index is where it stands.
pub proof fn lemma_index_of_unique<A>(s: Seq<A>, i: int)
    requires
        s.no_duplicates(),
        0 <= i < s.len(),
    ensures
        s.index_of(s[i]) == i,
{
    assert(s.contains(s[i]));
    let k = s.index_of(s[i]);
    assert(s[k] == s[i]);
}

/// Live connections, each with its outbound channel `T`, keyed by a
/// connection id.
///
/// The pairs are kept in a vector with distinct ids, in order of
/// registration, so that the recipients of a broadcast form a definite
/// sequence that a contract can name and count. A hash map's keys can only
/// be walked through prophetic iterator state, which no contract here can
/// mention.
pub struct ConnectionRegistry<T> {
    entries: Vec<(u64, T)>,
}

impl<T> ConnectionRegistry<T> {
    /// The registered ids, in order of registration.
    pub closed spec fn ids(&self) -> Seq<u64> {
        self.entries@.map_values(|e: (u64, T)| e.0)
    }

    /// The channel of each registered id.
    pub closed spec fn channels(&self) -> Map<u64, T> {
        Map::new(
            |id: u64| self.ids().contains(id),
            |id: u64| self.entries@[self.ids().index_of(id)].1,
        )
    }

    /// No id is registered twice.
    pub closed spec fn wf(&self) -> bool {
        self.ids().no_duplicates()
    }

    pub fn new() -> (r: Self)
        ensures
            r.wf(),
            r.ids() == Seq::<u64>::empty(),
    {
        let r = ConnectionRegistry { entries: Vec::new() };
        assert(r.ids() =~= Seq::<u64>::empty());
        r
    }

    fn position(&self, id: u64) -> (r: Option<usize>)
        ensures
            match r {
                Some(i) => i < self.entries@.len() && self.ids()[i as int] == id,
                None => !self.ids().contains(id),
            },
    {
        let n = self.entries.len();
        let mut i: usize = 0;
        while i < n
            invariant
                n == self.entries@.len(),
                i <= n,
                forall|j: int| 0 <= j < i ==> self.ids()[j] != id,
            decreases n - i,
        {
            if self.entries[i].0 == id {
                return Some(i);
            }
            i = i + 1;
        }
        None
    }

    /// Number of live connections.
    pub fn len(&self) -> (r: usize)
        ensures
            r == self.ids().len(),
    {
        self.entries.len()
    }

    pub fn contains(&self, id: u64) -> (r: bool)
        ensures
            r == self.ids().contains(id),
    {
        self.position(id).is_some()
    }

    /// The channel of `id`.
    pub fn get(&self, id: u64) -> (r: Option<&T>)
        requires
            self.wf(),
        ensures
            match r {
                Some(t) => self.channels().contains_key(id) && self.channels()[id] == *t,
                None => !self.channels().contains_key(id),
            },
    {
        match self.position(id) {
            Some(i) => {
                proof {
                    lemma_index_of_unique(self.ids(), i as int);
                }
                Some(&self.entries[i].1)
            },
            None => None,
        }
    }

    /// Registers `id` with its channel. An id registered already keeps its
    /// place and gets the new channel.
    pub fn register(&mut self, id: u64, tx: T)
        requires
            old(self).wf(),
        ensures
            final(self).wf(),
            old(self).ids().contains(id) ==> final(self).ids() == old(self).ids(),
            !old(self).ids().contains(id) ==> final(self).ids() == old(self).ids().push(id),
            final(self).channels() == old(self).channels().insert(id, tx),
    {
        let ghost old_ids = self.ids();
        let ghost old_entries = self.entries@;
        match self.position(id) {
            Some(i) => {
                let _ = self.entries.remove(i);
                self.entries.insert(i, (id, tx));
                assert(self.entries@ =~= old_entries.update(i as int, (id, tx)));
                assert(self.ids() =~= old_ids);
                proof {
                    lemma_index_of_unique(old_ids, i as int);
                    assert forall|k: u64| self.ids().contains(k) && k != id implies
                        self.ids().index_of(k) == old_ids.index_of(k) by {
                        lemma_index_of_unique(old_ids, old_ids.index_of(k));
                    }
                }
                assert(self.channels() =~= old(self).channels().insert(id, tx));
            },
            None => {
                self.entries.push((id, tx));
                assert(self.ids() =~= old_ids.push(id));
                proof {
                    assert forall|k: u64| self.ids().contains(k) implies (k == id || old_ids.contains(k)) by {
                        let j = choose|j: int| 0 <= j < self.ids().len() && self.ids()[j] == k;
                        if j < old_ids.len() {
                            assert(old_ids[j] == k);
                        }
                    }
                    assert(self.ids().no_duplicates());
                    lemma_index_of_unique(self.ids(), old_ids.len() as int);
                    assert(self.ids()[old_ids.len() as int] == id);
                    assert(self.entries@[old_ids.len() as int] == (id, tx));
                    assert forall|k: u64| old_ids.contains(k) implies self.ids().contains(k) by {
                        let j = choose|j: int| 0 <= j < old_ids.len() && old_ids[j] == k;
                        assert(self.ids()[j] == k);
                    }
                    assert forall|j: int| 0 <= j < old_ids.len() implies self.entries@[j] == old_entries[j] by {}
                    assert forall|k: u64| old_ids.contains(k) implies self.ids().index_of(k)
                        == old_ids.index_of(k) by {
                        let j = old_ids.index_of(k);
                        lemma_index_of_unique(old_ids, j);
                        lemma_index_of_unique(self.ids(), j);
                    }
                }
                assert(self.channels() =~= old(self).channels().insert(id, tx));
            },
        }
    }

    /// Removes `id`; nothing happens where it is not registered.
    pub fn unregister(&mut self, id: u64)
        requires
            old(self).wf(),
        ensures
            final(self).wf(),
            !final(self).ids().contains(id),
            forall|k: u64| k != id ==> (final(self).ids().contains(k) <==> old(self).ids().contains(k)),
            final(self).channels() == old(self).channels().remove(id),
    {
        let ghost old_ids = self.ids();
        let ghost old_entries = self.entries@;
        match self.position(id) {
            Some(i) => {
                let _ = self.entries.remove(i);
                assert(self.ids() =~= old_ids.remove(i as int));
                proof {
                    lemma_index_of_unique(old_ids, i as int);
                    assert forall|a: int, b: int| 0 <= a < b < self.ids().len() implies self.ids()[a]
                        != self.ids()[b] by {
                        let a0 = if a < i { a } else { a + 1 };
                        let b0 = if b < i { b } else { b + 1 };
                        assert(old_ids[a0] != old_ids[b0]);
                    }
                    assert forall|k: u64| k != id implies (self.ids().contains(k) <==> old_ids.contains(
                        k,
                    )) by {
                        if old_ids.contains(k) {
                            let j = old_ids.index_of(k);
                            lemma_index_of_unique(old_ids, j);
                            assert(j != i);
                            if j < i {
                                assert(self.ids()[j] == k);
                            } else {
                                assert(self.ids()[j - 1] == k);
                            }
                        }
                        if self.ids().contains(k) {
                            let j = choose|j: int| 0 <= j < self.ids().len() && self.ids()[j] == k;
                            if j < i {
                                assert(old_ids[j] == k);
                            } else {
                                assert(old_ids[j + 1] == k);
                            }
                        }
                    }
                    assert(!self.ids().contains(id)) by {
                        if self.ids().contains(id) {
                            let j = choose|j: int| 0 <= j < self.ids().len() && self.ids()[j] == id;
                            if j < i {
                                assert(old_ids[j] == id);
                            } else {
                                assert(old_ids[j + 1] == id);
                            }
                        }
                    }
                    assert forall|k: u64| self.ids().contains(k) implies self.entries@[self.ids().index_of(
                        k,
                    )].1 == old_entries[old_ids.index_of(k)].1 by {
                        let j = self.ids().index_of(k);
                        lemma_index_of_unique(self.ids(), j);
                        let j0 = if j < i { j } else { j + 1 };
                        assert(old_ids[j0] == k);
                        lemma_index_of_unique(old_ids, j0);
                    }
                }
                assert(self.channels() =~= old(self).channels().remove(id));
            },
            None => {
                assert(self.channels() =~= old(self).channels().remove(id));
            },
        }
    }

    /// The connections a broadcast reaches: every registered one but
    /// `exclude`, in order of registration.
    pub fn recipients(&self, exclude: Option<u64>) -> (r: Vec<u64>)
        ensures
            r@ == recipient_ids(self.ids(), exclude),
    {
        let mut out: Vec<u64> = Vec::new();
        let n = self.entries.len();
        let mut i: usize = 0;
        while i < n
            invariant
                n == self.entries@.len(),
                i <= n,
                out@ == recipient_ids(self.ids().subrange(0, i as int), exclude),
            decreases n - i,
        {
            assert(self.ids().subrange(0, i as int + 1).drop_last() =~= self.ids().subrange(0, i as int));
            let id = self.entries[i].0;
            let skip = match exclude {
                Some(x) => x == id,
                None => false,
            };
            if !skip {
                out.push(id);
            }
            i = i + 1;
        }
        assert(self.ids().subrange(0, n as int) =~= self.ids());
        out
    }
}

/// Echo suppression: among `N` distinct live connections, a broadcast that
/// excludes a live connection `c` reaches the `N - 1` others and not `c`;
/// one that excludes nobody reaches all `N`.
pub proof fn lemma_echo_suppression(ids: Seq<u64>, c: u64)
    requires
        ids.no_duplicates(),
    ensures
        ids.contains(c) ==> recipient_ids(ids, Some(c)).len() == ids.len() - 1,
        !ids.contains(c) ==> recipient_ids(ids, Some(c)).len() == ids.len(),
        !recipient_ids(ids, Some(c)).contains(c),
        forall|x: u64| x != c && ids.contains(x) ==> recipient_ids(ids, Some(c)).contains(x),
        recipient_ids(ids, None) == ids,
    decreases ids.len(),
{
    if ids.len() > 0 {
        let rest = ids.drop_last();
        assert(rest.no_duplicates());
        lemma_echo_suppression(rest, c);
        assert(ids =~= rest.push(ids.last()));
        if !ids.contains(c) {
            assert(!rest.contains(c)) by {
                if rest.contains(c) {
                    let j = choose|j: int| 0 <= j < rest.len() && rest[j] == c;
                    assert(ids[j] == c);
                }
            }
        }
        if ids.contains(c) && ids.last() != c {
            let j = choose|j: int| 0 <= j < ids.len() && ids[j] == c;
            assert(rest[j] == c);
        }
        if ids.last() == c {
            assert(!rest.contains(c)) by {
                if rest.contains(c) {
                    let j = choose|j: int| 0 <= j < rest.len() && rest[j] == c;
                    assert(ids[j] == ids[ids.len() - 1]);
                }
            }
        }
        assert forall|x: u64| x != c && ids.contains(x) implies recipient_ids(ids, Some(c)).contains(x) by {
            let r = recipient_ids(ids, Some(c));
            if x != ids.last() {
                let j = choose|j: int| 0 <= j < ids.len() && ids[j] == x;
                assert(rest[j] == x);
                let rr = recipient_ids(rest, Some(c));
                assert(rest.contains(x));
                assert(rr.contains(x));
                let k = choose|k: int| 0 <= k < rr.len() && rr[k] == x;
                if Some(ids.last()) == Some(c) {
                    assert(r == rr);
                } else {
                    assert(r == rr.push(ids.last()));
                }
                assert(r[k] == x);
            } else {
                assert(r[r.len() - 1] == x);
            }
        }
        assert(!recipient_ids(ids, Some(c)).contains(c)) by {
            if recipient_ids(ids, Some(c)).contains(c) {
                let r = recipient_ids(ids, Some(c));
                let j = choose|j: int| 0 <= j < r.len() && r[j] == c;
                if ids.last() != c {
                    assert(recipient_ids(rest, Some(c)).contains(c)) by {
                        if j < r.len() - 1 {
                            assert(recipient_ids(rest, Some(c))[j] == c);
                        }
                    }
                }
            }
        }
    } else {
        assert(recipient_ids(ids, None) =~= ids);
    }
}

} // verus!
