//! The queue store: the ordered collection of not-yet-finalized jobs
//! together with its durable mirror. Every mutation keeps the mirror equal
//! to the in-memory collection, so the caller can persist the mirror image
//! immediately after the mutation and the file never reflects a state the
//! collection has already moved past.

use vstd::prelude::*;
use crate::models::{JobModel, QueuedJob};

verus! {

/// The models of the records in a sequence, in order.
pub open spec fn views_of(s: Seq<QueuedJob>) -> Seq<JobModel> {
    s.map_values(|j: QueuedJob| j@)
}

/// No identifier names two live entries.
pub open spec fn unique_ids(s: Seq<JobModel>) -> bool {
    forall|i: int, k: int| #![trigger s[i], s[k]] 0 <= i < k < s.len() ==> s[i].id != s[k].id
}

/// Some entry carries this identifier.
pub open spec fn jobs_contain(s: Seq<JobModel>, id: u64) -> bool {
    exists|i: int| 0 <= i < s.len() && s[i].id == id
}

/// The entries that survive the removal of `id`, in their original order.
pub open spec fn without_id(s: Seq<JobModel>, id: u64) -> Seq<JobModel> {
    s.filter(|m: JobModel| m.id != id)
}

/// How many entries carry this identifier.
pub open spec fn id_count(s: Seq<JobModel>, id: u64) -> nat {
    s.filter(|m: JobModel| m.id == id).len()
}

/// Removing `id` from a sequence extended by one record keeps the record
/// exactly when its identifier differs.
pub proof fn lemma_without_id_push(s: Seq<JobModel>, id: u64, x: JobModel)
    ensures
        without_id(s.push(x), id) == if x.id != id {
            without_id(s, id).push(x)
        } else {
            without_id(s, id)
        },
{
    reveal(Seq::filter);
    assert(s.push(x).drop_last() =~= s);
    assert(s.push(x).last() == x);
}

/// Extending a sequence by one record raises the count of its identifier
/// by one and leaves every other count unchanged.
pub proof fn lemma_id_count_push(s: Seq<JobModel>, id: u64, x: JobModel)
    ensures
        id_count(s.push(x), id) == id_count(s, id) + if x.id == id {
            1nat
        } else {
            0nat
        },
{
    reveal(Seq::filter);
    assert(s.push(x).drop_last() =~= s);
    assert(s.push(x).last() == x);
}

/// An identifier is absent exactly when its count is zero.
pub proof fn lemma_count_zero_iff_absent(s: Seq<JobModel>, id: u64)
    ensures
        id_count(s, id) == 0 <==> !jobs_contain(s, id),
    decreases s.len(),
{
    reveal(Seq::filter);
    if s.len() == 0 {
        assert(!jobs_contain(s, id));
    } else {
        let d = s.drop_last();
        let x = s.last();
        lemma_count_zero_iff_absent(d, id);
        assert(d.push(x) =~= s);
        lemma_id_count_push(d, id, x);
        if x.id == id {
            assert(s[s.len() - 1].id == id);
        } else {
            if jobs_contain(s, id) {
                let i = choose|i: int| 0 <= i < s.len() && s[i].id == id;
                assert(d[i].id == id);
            }
            if jobs_contain(d, id) {
                let i = choose|i: int| 0 <= i < d.len() && d[i].id == id;
                assert(s[i].id == id);
            }
        }
    }
}

/// What survives a removal: no surviving entry carries the removed
/// identifier, every surviving identifier was present before, and
/// uniqueness of identifiers is preserved.
pub proof fn lemma_without_id_props(s: Seq<JobModel>, id: u64)
    ensures
        forall|k: int|
            0 <= k < without_id(s, id).len() ==> #[trigger] without_id(s, id)[k].id != id,
        forall|k: int|
            0 <= k < without_id(s, id).len() ==> jobs_contain(
                s,
                #[trigger] without_id(s, id)[k].id,
            ),
        unique_ids(s) ==> unique_ids(without_id(s, id)),
    decreases s.len(),
{
    reveal(Seq::filter);
    if s.len() == 0 {
    } else {
        let d = s.drop_last();
        let x = s.last();
        assert(d.push(x) =~= s);
        lemma_without_id_props(d, id);
        lemma_without_id_push(d, id, x);
        let w = without_id(s, id);
        let wd = without_id(d, id);
        assert forall|k: int| 0 <= k < w.len() implies jobs_contain(s, #[trigger] w[k].id) by {
            if k < wd.len() {
                let i = choose|i: int| 0 <= i < d.len() && d[i].id == wd[k].id;
                assert(s[i].id == w[k].id);
            } else {
                assert(w[k] == x);
                assert(s[s.len() - 1].id == w[k].id);
            }
        }
        if unique_ids(s) {
            assert(unique_ids(d)) by {
                assert(forall|i: int, k: int|
                    #![trigger s[i], s[k]]
                    0 <= i < k < d.len() ==> s[i].id != s[k].id);
            }
            assert forall|i: int, k: int|
                #![trigger w[i], w[k]]
                0 <= i < k < w.len() implies w[i].id != w[k].id by {
                if k < wd.len() {
                } else {
                    assert(w[k] == x);
                    let j = choose|j: int| 0 <= j < d.len() && d[j].id == wd[i].id;
                    assert(s[j].id == w[i].id);
                    assert(s[j].id != s[s.len() - 1].id);
                }
            }
        }
    }
}

/// The ordered collection of pending jobs and its durable mirror.
pub struct QueueStore {
    entries: Vec<QueuedJob>,
    mirror: Vec<QueuedJob>,
}

impl QueueStore {
    /// The current snapshot, as a sequence of job models.
    pub closed spec fn jobs(&self) -> Seq<JobModel> {
        views_of(self.entries@)
    }

    /// What the durable mirror holds, as a sequence of job models.
    pub closed spec fn mirror_jobs(&self) -> Seq<JobModel> {
        views_of(self.mirror@)
    }

    /// Well-formed: the mirror reproduces the snapshot exactly, and no
    /// identifier names two live entries.
    pub closed spec fn wf(&self) -> bool {
        self.mirror_jobs() == self.jobs() && unique_ids(self.jobs())
    }

    /// Law: after any completed mutation the durable mirror reproduces the
    /// in-memory snapshot exactly — order and fields.
    pub proof fn law_mirror_matches(&self)
        requires
            self.wf(),
        ensures
            self.mirror_jobs() == self.jobs(),
            unique_ids(self.jobs()),
    {
    }

    pub fn new() -> (s: QueueStore)
        ensures
            s.wf(),
            s.jobs() == Seq::<JobModel>::empty(),
    {
        let s = QueueStore { entries: Vec::new(), mirror: Vec::new() };
        proof {
            assert(s.jobs() =~= Seq::<JobModel>::empty());
            assert(s.mirror_jobs() =~= s.jobs());
        }
        s
    }

    pub fn len(&self) -> (n: usize)
        ensures
            n == self.jobs().len(),
    {
        self.entries.len()
    }

    /// The current ordered collection, for read-only inspection.
    pub fn snapshot(&self) -> (r: &Vec<QueuedJob>)
        ensures
            views_of(r@) == self.jobs(),
    {
        &self.entries
    }

    /// The records to be written to the durable mirror, equal to the
    /// snapshot whenever the store is well-formed.
    pub fn mirror_image(&self) -> (r: &Vec<QueuedJob>)
        ensures
            views_of(r@) == self.mirror_jobs(),
    {
        &self.mirror
    }

    /// Whether some live entry carries this identifier.
    pub fn contains_id(&self, id: u64) -> (r: bool)
        ensures
            r == jobs_contain(self.jobs(), id),
    {
        let n = self.entries.len();
        let mut i: usize = 0;
        while i < n
            invariant
                0 <= i <= n,
                n == self.entries.len(),
                forall|k: int| 0 <= k < i ==> self.jobs()[k].id != id,
            decreases n - i,
        {
            if self.entries[i].id == id {
                proof {
                    assert(self.jobs()[i as int].id == id);
                }
                return true;
            }
            i += 1;
        }
        false
    }

    /// Appends a record at the tail and rewrites the mirror in the same
    /// step. The identifier must not name a live entry.
    pub fn append(&mut self, job: QueuedJob)
        requires
            old(self).wf(),
            !jobs_contain(old(self).jobs(), job.id),
        ensures
            final(self).wf(),
            final(self).jobs() == old(self).jobs().push(job@),
    {
        let dup = job.copy_of();
        proof {
            assert(views_of(self.entries@.push(job)) =~= self.jobs().push(job@));
            assert(views_of(self.mirror@.push(dup)) =~= self.mirror_jobs().push(dup@));
        }
        self.entries.push(job);
        self.mirror.push(dup);
        proof {
            let s = old(self).jobs();
            assert forall|i: int, k: int|
                #![trigger self.jobs()[i], self.jobs()[k]]
                0 <= i < k < self.jobs().len() implies self.jobs()[i].id != self.jobs()[k].id by {
                if k == s.len() {
                    assert(!(s[i].id == self.jobs()[k].id));
                }
            }
        }
    }

    /// Deletes the entry with this identifier if one is live — a no-op
    /// otherwise — and rewrites the mirror in the same step.
    pub fn remove_id(&mut self, id: u64)
        requires
            old(self).wf(),
        ensures
            final(self).wf(),
            final(self).jobs() == without_id(old(self).jobs(), id),
            !jobs_contain(final(self).jobs(), id),
    {
        let ghost all = self.jobs();
        let n = self.entries.len();
        let mut kept: Vec<QueuedJob> = Vec::new();
        let mut kept_mirror: Vec<QueuedJob> = Vec::new();
        let mut i: usize = 0;
        proof {
            reveal(Seq::filter);
            assert(all.take(0) =~= Seq::<JobModel>::empty());
            assert(views_of(kept@) =~= without_id(all.take(0), id));
            assert(views_of(kept_mirror@) =~= views_of(kept@));
        }
        while i < n
            invariant
                0 <= i <= n,
                n == self.entries.len(),
                all == self.jobs(),
                views_of(kept@) == without_id(all.take(i as int), id),
                views_of(kept_mirror@) == views_of(kept@),
            decreases n - i,
        {
            proof {
                assert(all.take(i as int + 1) =~= all.take(i as int).push(all[i as int]));
                lemma_without_id_push(all.take(i as int), id, all[i as int]);
            }
            if self.entries[i].id != id {
                let c1 = self.entries[i].copy_of();
                let c2 = self.entries[i].copy_of();
                proof {
                    assert(c1@ == all[i as int]);
                    assert(views_of(kept@.push(c1)) =~= views_of(kept@).push(c1@));
                    assert(views_of(kept_mirror@.push(c2)) =~= views_of(kept_mirror@).push(c2@));
                }
                kept.push(c1);
                kept_mirror.push(c2);
            } else {
                proof {
                    assert(all[i as int].id == id);
                }
            }
            i += 1;
        }
        proof {
            assert(all.take(n as int) =~= all);
            lemma_without_id_props(all, id);
            lemma_count_zero_iff_absent(without_id(all, id), id);
            assert forall|k: int|
                0 <= k < without_id(all, id).len() implies !(#[trigger] without_id(all, id)[k].id
                == id) by {}
            if jobs_contain(without_id(all, id), id) {
                let k = choose|k: int|
                    0 <= k < without_id(all, id).len() && without_id(all, id)[k].id == id;
            }
        }
        self.entries = kept;
        self.mirror = kept_mirror;
    }
}

/// Law: enqueueing a record whose identifier is fresh leaves exactly one
/// live entry with that identifier.
pub proof fn law_enqueue_exactly_one(s: Seq<JobModel>, x: JobModel)
    requires
        !jobs_contain(s, x.id),
    ensures
        id_count(s.push(x), x.id) == 1,
{
    lemma_count_zero_iff_absent(s, x.id);
    lemma_id_count_push(s, x.id, x);
}

/// Law: while an enqueued job is live — after its enqueue and before its
/// removal — the snapshot holds exactly one entry with its identifier.
pub proof fn law_live_entry_unique(s: Seq<JobModel>, id: u64)
    requires
        unique_ids(s),
        jobs_contain(s, id),
    ensures
        id_count(s, id) == 1,
    decreases s.len(),
{
    let d = s.drop_last();
    let x = s.last();
    assert(d.push(x) =~= s);
    lemma_id_count_push(d, id, x);
    if x.id == id {
        assert(!jobs_contain(d, id)) by {
            if jobs_contain(d, id) {
                let i = choose|i: int| 0 <= i < d.len() && d[i].id == id;
                assert(s[i].id == s[s.len() - 1].id);
            }
        }
        lemma_count_zero_iff_absent(d, id);
    } else {
        let i = choose|i: int| 0 <= i < s.len() && s[i].id == id;
        assert(d[i].id == id);
        assert(unique_ids(d)) by {
            assert(forall|i: int, k: int|
                #![trigger s[i], s[k]]
                0 <= i < k < d.len() ==> s[i].id != s[k].id);
        }
        law_live_entry_unique(d, id);
    }
}

/// Law: immediately after a removal, no live entry carries the removed
/// identifier.
pub proof fn law_removed_absent(s: Seq<JobModel>, id: u64)
    ensures
        id_count(without_id(s, id), id) == 0,
{
    lemma_without_id_props(s, id);
    lemma_count_zero_iff_absent(without_id(s, id), id);
    if jobs_contain(without_id(s, id), id) {
        let k = choose|k: int|
            0 <= k < without_id(s, id).len() && without_id(s, id)[k].id == id;
    }
}

/// Law: an absent identifier stays absent across an append of a record
/// with a different identifier — so a removed identifier, never drawn
/// again, never reappears.
pub proof fn law_absent_after_append(s: Seq<JobModel>, x: JobModel, id: u64)
    requires
        !jobs_contain(s, id),
        x.id != id,
    ensures
        !jobs_contain(s.push(x), id),
        id_count(s.push(x), id) == 0,
{
    lemma_count_zero_iff_absent(s, id);
    lemma_id_count_push(s, id, x);
    lemma_count_zero_iff_absent(s.push(x), id);
}

/// Law: a live identifier survives the removal of a different one.
pub proof fn law_present_after_other_removal(s: Seq<JobModel>, other: u64, id: u64)
    requires
        jobs_contain(s, id),
        id != other,
    ensures
        jobs_contain(without_id(s, other), id),
    decreases s.len(),
{
    let i = choose|i: int| 0 <= i < s.len() && s[i].id == id;
    let d = s.drop_last();
    let x = s.last();
    assert(d.push(x) =~= s);
    lemma_without_id_push(d, other, x);
    if i == s.len() - 1 {
        assert(x.id == id);
        let w = without_id(s, other);
        assert(w[w.len() - 1].id == id);
    } else {
        assert(d[i].id == id);
        law_present_after_other_removal(d, other, id);
        let k = choose|k: int| 0 <= k < without_id(d, other).len() && without_id(d, other)[k].id
            == id;
        assert(without_id(s, other)[k].id == id);
    }
}

/// Law: removing an identifier that names no live entry is a no-op.
pub proof fn law_remove_absent_noop(s: Seq<JobModel>, id: u64)
    requires
        !jobs_contain(s, id),
    ensures
        without_id(s, id) == s,
    decreases s.len(),
{
    reveal(Seq::filter);
    if s.len() == 0 {
        assert(without_id(s, id) =~= s);
    } else {
        let d = s.drop_last();
        let x = s.last();
        assert(d.push(x) =~= s);
        assert(!jobs_contain(d, id)) by {
            if jobs_contain(d, id) {
                let i = choose|i: int| 0 <= i < d.len() && d[i].id == id;
                assert(s[i].id == id);
            }
        }
        law_remove_absent_noop(d, id);
        lemma_without_id_push(d, id, x);
        assert(x.id != id) by {
            assert(s[s.len() - 1] == x);
        }
        assert(without_id(s, id) =~= s);
    }
}

/// Law: an absent identifier stays absent across any removal.
pub proof fn law_absent_after_removal(s: Seq<JobModel>, other: u64, id: u64)
    requires
        !jobs_contain(s, id),
    ensures
        !jobs_contain(without_id(s, other), id),
{
    lemma_without_id_props(s, other);
    if jobs_contain(without_id(s, other), id) {
        let k = choose|k: int|
            0 <= k < without_id(s, other).len() && without_id(s, other)[k].id == id;
    }
}

} // verus!
