//! The list store's contract, kept in memory: lists keyed by id, replaced
//! whole on upsert, and soft-deleted rather than removed. The durable store
//! reads its records into this model, which decides what listings and
//! lookups return.

use vstd::prelude::*;
use crate::registry::lemma_index_of_unique;
use crate::todo_list::{ListModel, TodoList};

verus! {

/// The ids a listing returns: all stored ids, or those not deleted.
pub open spec fn visible(m: Map<i64, ListModel>, include_deleted: bool) -> Set<i64> {
    m.dom().filter(|id: i64| include_deleted || !m[id].deleted)
}

/// The store after a soft delete of `id`: its record is kept with
/// `deleted` set; an unknown id changes nothing.
pub open spec fn soft_deleted(m: Map<i64, ListModel>, id: i64) -> Map<i64, ListModel> {
    if m.contains_key(id) {
        m.insert(id, ListModel { deleted: true, ..m[id] })
    } else {
        m
    }
}

/// Lists keyed by their id.
pub struct ListStore {
    lists: Vec<TodoList>,
}

impl ListStore {
    /// The stored ids, in order of first insertion.
    pub closed spec fn ids(&self) -> Seq<i64> {
        self.lists@.map_values(|l: TodoList| l.list_id)
    }

    /// What the store holds, by id.
    pub closed spec fn model(&self) -> Map<i64, ListModel> {
        Map::new(|id: i64| self.ids().contains(id), |id: i64| self.lists@[self.ids().index_of(id)]@)
    }

    /// No id is stored twice.
    pub closed spec fn wf(&self) -> bool {
        self.ids().no_duplicates()
    }

    proof fn lemma_model_at(&self, i: int)
        requires
            self.wf(),
            0 <= i < self.lists@.len(),
        ensures
            self.model().contains_key(self.lists@[i].list_id),
            self.model()[self.lists@[i].list_id] == self.lists@[i]@,
    {
        assert(self.ids()[i] == self.lists@[i].list_id);
        lemma_index_of_unique(self.ids(), i);
    }

    pub fn new() -> (r: Self)
        ensures
            r.wf(),
            r.model() == Map::<i64, ListModel>::empty(),
    {
        let r = ListStore { lists: Vec::new() };
        assert(r.model() =~= Map::<i64, ListModel>::empty());
        r
    }

    fn position(&self, id: i64) -> (r: Option<usize>)
        ensures
            match r {
                Some(i) => i < self.lists@.len() && self.ids()[i as int] == id,
                None => !self.ids().contains(id),
            },
    {
        let n = self.lists.len();
        let mut i: usize = 0;
        while i < n
            invariant
                n == self.lists@.len(),
                i <= n,
                forall|j: int| 0 <= j < i ==> self.ids()[j] != id,
            decreases n - i,
        {
            if self.lists[i].list_id == id {
                return Some(i);
            }
            i = i + 1;
        }
        None
    }

    /// Replaces the record at `i` by one with the same id.
    fn replace_at(&mut self, i: usize, list: TodoList)
        requires
            old(self).wf(),
            i < old(self).lists@.len(),
            old(self).ids()[i as int] == list.list_id,
        ensures
            final(self).wf(),
            final(self).model() == old(self).model().insert(list.list_id, list@),
    {
        let ghost old_ids = self.ids();
        let ghost old_lists = self.lists@;
        let ghost l = list;
        let _ = self.lists.remove(i);
        self.lists.insert(i, list);
        assert(self.lists@ =~= old_lists.update(i as int, l));
        assert(self.ids() =~= old_ids);
        proof {
            lemma_index_of_unique(old_ids, i as int);
            assert forall|k: i64| self.ids().contains(k) && k != l.list_id implies self.lists@[self.ids().index_of(
                k,
            )] == old_lists[old_ids.index_of(k)] by {
                lemma_index_of_unique(old_ids, old_ids.index_of(k));
            }
        }
        assert(self.model() =~= old(self).model().insert(l.list_id, l@));
    }

    /// Stores `list`, replacing whole any record with its id.
    pub fn upsert(&mut self, list: TodoList)
        requires
            old(self).wf(),
        ensures
            final(self).wf(),
            final(self).model() == old(self).model().insert(list.list_id, list@),
    {
        let ghost old_ids = self.ids();
        let ghost old_lists = self.lists@;
        let ghost l = list;
        match self.position(list.list_id) {
            Some(i) => self.replace_at(i, list),
            None => {
                let id = list.list_id;
                self.lists.push(list);
                assert(self.ids() =~= old_ids.push(id));
                proof {
                    assert forall|a: int, b: int| 0 <= a < b < self.ids().len() implies self.ids()[a]
                        != self.ids()[b] by {
                        if b == old_ids.len() {
                            assert(old_ids.contains(old_ids[a]));
                        }
                    }
                    assert forall|k: i64| self.ids().contains(k) implies (k == id || old_ids.contains(k)) by {
                        let j = choose|j: int| 0 <= j < self.ids().len() && self.ids()[j] == k;
                        if j < old_ids.len() {
                            assert(old_ids[j] == k);
                        }
                    }
                    assert forall|k: i64| old_ids.contains(k) implies self.ids().contains(k) by {
                        let j = choose|j: int| 0 <= j < old_ids.len() && old_ids[j] == k;
                        assert(self.ids()[j] == k);
                    }
                    lemma_index_of_unique(self.ids(), old_ids.len() as int);
                    assert(self.ids()[old_ids.len() as int] == id);
                    assert forall|k: i64| old_ids.contains(k) implies self.ids().index_of(k)
                        == old_ids.index_of(k) by {
                        let j = old_ids.index_of(k);
                        lemma_index_of_unique(old_ids, j);
                        lemma_index_of_unique(self.ids(), j);
                    }
                }
                assert(self.model() =~= old(self).model().insert(id, l@));
            },
        }
    }

    /// Marks the list `id` deleted, keeping its record. Returns whether the
    /// id was stored.
    pub fn soft_delete(&mut self, id: i64) -> (found: bool)
        requires
            old(self).wf(),
        ensures
            final(self).wf(),
            found == old(self).model().contains_key(id),
            final(self).model() == soft_deleted(old(self).model(), id),
    {
        match self.position(id) {
            Some(i) => {
                proof {
                    self.lemma_model_at(i as int);
                }
                let mut list = self.lists[i].copy();
                list.deleted = true;
                let ghost l = list@;
                self.replace_at(i, list);
                assert(l == ListModel { deleted: true, ..old(self).model()[id] });
                true
            },
            None => {
                assert(self.model() =~= soft_deleted(old(self).model(), id));
                false
            },
        }
    }

    /// Every stored list, or those not deleted, each once.
    pub fn get_all(&self, include_deleted: bool) -> (r: Vec<TodoList>)
        requires
            self.wf(),
        ensures
            forall|i: int|
                #![trigger r@[i]]
                0 <= i < r@.len() ==> visible(self.model(), include_deleted).contains(r@[i].list_id)
                    && r@[i]@ == self.model()[r@[i].list_id],
            forall|id: i64|
                visible(self.model(), include_deleted).contains(id) ==> exists|i: int|
                    0 <= i < r@.len() && r@[i].list_id == id,
            r@.map_values(|l: TodoList| l.list_id).no_duplicates(),
    {
        let mut out: Vec<TodoList> = Vec::new();
        let ghost taken: Seq<int> = Seq::empty();
        let n = self.lists.len();
        let mut i: usize = 0;
        while i < n
            invariant
                self.wf(),
                n == self.lists@.len(),
                i <= n,
                forall|k: int|
                    #![trigger out@[k]]
                    0 <= k < out@.len() ==> visible(self.model(), include_deleted).contains(out@[k].list_id)
                        && out@[k]@ == self.model()[out@[k].list_id],
                forall|k: int|
                    #![trigger out@[k]]
                    0 <= k < out@.len() ==> exists|j: int| 0 <= j < i && self.ids()[j] == out@[k].list_id,
                forall|j: int|
                    0 <= j < i && visible(self.model(), include_deleted).contains(self.ids()[j]) ==> exists|k: int|
                        0 <= k < out@.len() && out@[k].list_id == self.ids()[j],
                out@.map_values(|l: TodoList| l.list_id).no_duplicates(),
            decreases n - i,
        {
            proof {
                self.lemma_model_at(i as int);
            }
            if include_deleted || !self.lists[i].deleted {
                let ghost before = out@;
                let c = self.lists[i].copy();
                out.push(c);
                proof {
                    let ids_out = out@.map_values(|l: TodoList| l.list_id);
                    assert forall|a: int, b: int| 0 <= a < b < ids_out.len() implies ids_out[a] != ids_out[b] by {
                        if b == before.len() {
                            assert(before.map_values(|l: TodoList| l.list_id)[a] == ids_out[a]);
                            let j = choose|j: int| 0 <= j < i && self.ids()[j] == out@[a].list_id;
                            assert(self.ids()[j] != self.ids()[i as int]);
                        } else {
                            assert(before.map_values(|l: TodoList| l.list_id)[a] == ids_out[a]);
                            assert(before.map_values(|l: TodoList| l.list_id)[b] == ids_out[b]);
                        }
                    }
                    assert(out@[before.len() as int].list_id == self.ids()[i as int]);
                    assert forall|k: int| 0 <= k < out@.len() implies exists|j: int|
                        0 <= j < i + 1 && self.ids()[j] == #[trigger] out@[k].list_id by {
                        if k < before.len() {
                            assert(out@[k] == before[k]);
                        } else {
                            assert(self.ids()[i as int] == out@[k].list_id);
                        }
                    }
                    assert forall|j: int| 0 <= j < i + 1 && visible(self.model(), include_deleted).contains(
                        self.ids()[j],
                    ) implies exists|k: int| 0 <= k < out@.len() && out@[k].list_id == self.ids()[j] by {
                        if j < i {
                            let k = choose|k: int| 0 <= k < before.len() && before[k].list_id == self.ids()[j];
                            assert(out@[k] == before[k]);
                        } else {
                            assert(out@[before.len() as int].list_id == self.ids()[j]);
                        }
                    }
                }
            } else {
                proof {
                    assert(!visible(self.model(), include_deleted).contains(self.ids()[i as int]));
                }
            }
            i = i + 1;
        }
        proof {
            assert forall|id: i64| visible(self.model(), include_deleted).contains(id) implies exists|i: int|
                0 <= i < out@.len() && out@[i].list_id == id by {
                let j = self.ids().index_of(id);
                assert(self.ids().contains(id));
            }
        }
        out
    }

    /// The list `id`; a deleted one only where `include_deleted` asks.
    pub fn get_one(&self, id: i64, include_deleted: bool) -> (r: Option<TodoList>)
        requires
            self.wf(),
        ensures
            r is Some <==> visible(self.model(), include_deleted).contains(id),
            r matches Some(l) ==> l@ == self.model()[id],
    {
        match self.position(id) {
            Some(i) => {
                proof {
                    self.lemma_model_at(i as int);
                }
                if include_deleted || !self.lists[i].deleted {
                    Some(self.lists[i].copy())
                } else {
                    None
                }
            },
            None => None,
        }
    }

    /// The issue id stored for the list `id`, deleted or not.
    pub fn get_external_ref(&self, id: i64) -> (r: Option<i64>)
        requires
            self.wf(),
        ensures
            r is Some <==> self.model().contains_key(id),
            r matches Some(g) ==> g == self.model()[id].github_issue_id,
    {
        match self.position(id) {
            Some(i) => {
                proof {
                    self.lemma_model_at(i as int);
                }
                Some(self.lists[i].github_issue_id)
            },
            None => None,
        }
    }

    /// Every stored id, deleted lists included.
    pub fn all_ids(&self) -> (r: Vec<i64>)
        ensures
            r@ == self.ids(),
            forall|id: i64| r@.contains(id) <==> self.model().contains_key(id),
    {
        let mut out: Vec<i64> = Vec::new();
        let n = self.lists.len();
        let mut i: usize = 0;
        while i < n
            invariant
                n == self.lists@.len(),
                i <= n,
                out@ == self.ids().subrange(0, i as int),
            decreases n - i,
        {
            out.push(self.lists[i].list_id);
            assert(out@ =~= self.ids().subrange(0, i as int + 1));
            i = i + 1;
        }
        assert(out@ =~= self.ids());
        out
    }
}

/// Publishing the same update twice leaves the store as one publish does.
pub proof fn lemma_upsert_idempotent(m: Map<i64, ListModel>, l: ListModel)
    ensures
        m.insert(l.list_id, l).insert(l.list_id, l) == m.insert(l.list_id, l),
{
    assert(m.insert(l.list_id, l).insert(l.list_id, l) =~= m.insert(l.list_id, l));
}

/// After a soft delete of a stored list, a default listing leaves it out and
/// a listing with deleted lists shows it, marked deleted.
pub proof fn lemma_soft_delete_visibility(m: Map<i64, ListModel>, id: i64)
    requires
        m.contains_key(id),
    ensures
        !visible(soft_deleted(m, id), false).contains(id),
        visible(soft_deleted(m, id), true).contains(id),
        soft_deleted(m, id)[id].deleted,
        visible(soft_deleted(m, id), true) == visible(m, true),
{
    assert(visible(soft_deleted(m, id), true) =~= visible(m, true));
}

} // verus!
