use crate::putio::PutIOTransfer;
use crate::transfer::{transfer_of, Transfer, TransferMessage};
use vstd::prelude::*;

verus! {

/// Whether a transfer with identifier `id` is in the listing.
pub open spec fn listed(listing: Seq<PutIOTransfer>, id: u64) -> bool {
    exists|k: int| 0 <= k < listing.len() && listing[k].id == id
}

/// The identifiers of the listing entries at the positions `picks`.
pub open spec fn picked_ids(listing: Seq<PutIOTransfer>, picks: Seq<int>) -> Seq<u64> {
    picks.map_values(|k: int| listing[k].id)
}

/// The positions, among the first `n` entries of a listing, of the transfers
/// that a reconciliation tick queues for download when `seen` is the working
/// set: downloadable, not yet seen, and not queued earlier in the same tick.
pub open spec fn queue_picks(seen: Seq<u64>, listing: Seq<PutIOTransfer>, n: int) -> Seq<int>
    decreases n,
{
    if n <= 0 || n > listing.len() {
        Seq::empty()
    } else {
        let prev = queue_picks(seen, listing, n - 1);
        let t = listing[n - 1];
        if t.file_id is Some && !seen.contains(t.id) && !picked_ids(listing, prev).contains(t.id) {
            prev.push(n - 1)
        } else {
            prev
        }
    }
}

/// The positions queued by a whole tick over `listing`.
pub open spec fn tick_picks(seen: Seq<u64>, listing: Seq<PutIOTransfer>) -> Seq<int> {
    queue_picks(seen, listing, listing.len() as int)
}

/// The working set of the discovery loop: the identifiers of the remote
/// transfers already handed to the pipeline.
#[derive(Debug)]
pub struct Discovery {
    pub seen: Vec<u64>,
}

fn contains_id(v: &Vec<u64>, id: u64) -> (r: bool)
    ensures
        r == v@.contains(id),
{
    let mut i: usize = 0;
    while i < v.len()
        invariant
            i <= v.len(),
            forall|k: int| 0 <= k < i ==> v@[k] != id,
        decreases v.len() - i,
    {
        if v[i] == id {
            assert(v@[i as int] == id);
            return true;
        }
        i = i + 1;
    }
    false
}

fn listing_has(listing: &Vec<PutIOTransfer>, id: u64) -> (r: bool)
    ensures
        r == listed(listing@, id),
{
    let mut i: usize = 0;
    while i < listing.len()
        invariant
            i <= listing.len(),
            forall|k: int| 0 <= k < i ==> listing@[k].id != id,
        decreases listing.len() - i,
    {
        if listing[i].id == id {
            assert(listing@[i as int].id == id);
            return true;
        }
        i = i + 1;
    }
    false
}

/// An identifier that is in the working set is never queued by a tick.
pub proof fn lemma_seen_never_requeued(seen: Seq<u64>, listing: Seq<PutIOTransfer>, id: u64)
    requires
        seen.contains(id),
    ensures
        !picked_ids(listing, tick_picks(seen, listing)).contains(id),
{
    lemma_seen_not_picked(seen, listing, listing.len() as int, id);
}

/// A transfer that the startup pass announced as imported joined the working
/// set, so the next tick does not queue it for download; and while it stays
/// listed it stays in the set, so no later tick does either.
pub proof fn lemma_startup_import_never_queued(
    seen: Seq<u64>,
    id: u64,
    listing: Seq<PutIOTransfer>,
    next_seen: Seq<u64>,
)
    requires
        forall|x: u64|
            #[trigger] next_seen.contains(x) <==> ((seen.push(id).contains(x) || picked_ids(
                listing,
                tick_picks(seen.push(id), listing),
            ).contains(x)) && listed(listing, x)),
    ensures
        !picked_ids(listing, tick_picks(seen.push(id), listing)).contains(id),
        listed(listing, id) ==> next_seen.contains(id),
{
    assert(seen.push(id)[seen.len() as int] == id);
    lemma_seen_never_requeued(seen.push(id), listing, id);
}

proof fn lemma_seen_not_picked(seen: Seq<u64>, listing: Seq<PutIOTransfer>, n: int, id: u64)
    requires
        seen.contains(id),
    ensures
        !picked_ids(listing, queue_picks(seen, listing, n)).contains(id),
    decreases n,
{
    if n > 0 && n <= listing.len() {
        lemma_seen_not_picked(seen, listing, n - 1, id);
        let prev = queue_picks(seen, listing, n - 1);
        let t = listing[n - 1];
        if t.file_id is Some && !seen.contains(t.id) && !picked_ids(listing, prev).contains(t.id) {
            assert(picked_ids(listing, prev.push(n - 1)) =~= picked_ids(listing, prev).push(t.id));
        }
    }
}

impl Discovery {
    /// An empty working set.
    pub fn new() -> (r: Discovery)
        ensures
            r.seen@ == Seq::<u64>::empty(),
    {
        Discovery { seen: Vec::new() }
    }

    /// Decides, in the startup pass, about a downloadable transfer whose targets
    /// were resolved: one that is already imported joins the working set and is
    /// announced as imported, skipping its download; any other is left for the
    /// polling ticks.
    pub fn startup_check(&mut self, transfer: Transfer, imported: bool) -> (r: Option<
        TransferMessage,
    >)
        ensures
            imported ==> final(self).seen@ == old(self).seen@.push(transfer.transfer_id)
                && r == Some(TransferMessage::Imported(transfer)),
            !imported ==> final(self).seen@ == old(self).seen@ && r is None,
    {
        if imported {
            self.seen.push(transfer.transfer_id);
            Some(TransferMessage::Imported(transfer))
        } else {
            None
        }
    }

    /// One reconciliation tick over a fresh remote listing: queues each
    /// downloadable transfer that is not in the working set (once, even if it is
    /// listed twice), adds it to the set, and then drops from the set every
    /// identifier that the listing no longer holds.
    pub fn tick(&mut self, listing: &Vec<PutIOTransfer>) -> (queued: Vec<TransferMessage>)
        ensures
            queued@.len() == tick_picks(old(self).seen@, listing@).len(),
            forall|k: int|
                0 <= k < queued@.len() ==> {
                    &&& #[trigger] queued@[k] is QueuedForDownload
                    &&& queued@[k]->QueuedForDownload_0@ == transfer_of(
                        listing@[tick_picks(old(self).seen@, listing@)[k]],
                    )
                },
            forall|id: u64|
                #[trigger] final(self).seen@.contains(id) <==> ((old(self).seen@.contains(id)
                    || picked_ids(listing@, tick_picks(old(self).seen@, listing@)).contains(id))
                    && listed(listing@, id)),
    {
        let ghost seen0 = self.seen@;
        let mut queued: Vec<TransferMessage> = Vec::new();
        let mut i: usize = 0;
        while i < listing.len()
            invariant
                i <= listing.len(),
                self.seen@ == seen0 + picked_ids(listing@, queue_picks(seen0, listing@, i as int)),
                queued@.len() == queue_picks(seen0, listing@, i as int).len(),
                forall|k: int|
                    0 <= k < queued@.len() ==> {
                        &&& #[trigger] queued@[k] is QueuedForDownload
                        &&& queued@[k]->QueuedForDownload_0@ == transfer_of(
                            listing@[queue_picks(seen0, listing@, i as int)[k]],
                        )
                    },
            decreases listing.len() - i,
        {
            let t = &listing[i];
            let ghost prev = queue_picks(seen0, listing@, i as int);
            assert(queue_picks(seen0, listing@, i + 1) == if t.file_id is Some && !seen0.contains(t.id)
                && !picked_ids(listing@, prev).contains(t.id) {
                prev.push(i as int)
            } else {
                prev
            });
            if t.is_downloadable() && !contains_id(&self.seen, t.id) {
                assert(!seen0.contains(t.id)) by {
                    if seen0.contains(t.id) {
                        let j = choose|j: int| 0 <= j < seen0.len() && seen0[j] == t.id;
                        assert(self.seen@[j] == t.id);
                    }
                }
                assert(!picked_ids(listing@, prev).contains(t.id)) by {
                    if picked_ids(listing@, prev).contains(t.id) {
                        let j = choose|j: int|
                            0 <= j < picked_ids(listing@, prev).len() && picked_ids(
                                listing@,
                                prev,
                            )[j] == t.id;
                        assert(self.seen@[seen0.len() + j] == t.id);
                    }
                }
                queued.push(TransferMessage::QueuedForDownload(Transfer::from(t)));
                self.seen.push(t.id);
                assert(picked_ids(listing@, prev.push(i as int)) =~= picked_ids(listing@, prev).push(
                    t.id,
                ));
            } else {
                assert(!(t.file_id is Some && !seen0.contains(t.id) && !picked_ids(
                    listing@,
                    prev,
                ).contains(t.id))) by {
                    if t.file_id is Some && !seen0.contains(t.id) && !picked_ids(
                        listing@,
                        prev,
                    ).contains(t.id) {
                        assert(self.seen@.contains(t.id));
                        let j = choose|j: int| 0 <= j < self.seen@.len() && self.seen@[j] == t.id;
                        if j < seen0.len() {
                            assert(seen0[j] == t.id);
                        } else {
                            assert(picked_ids(listing@, prev)[j - seen0.len()] == t.id);
                        }
                    }
                }
            }
            i = i + 1;
        }
        let ghost all = self.seen@;
        let mut kept: Vec<u64> = Vec::new();
        let mut j: usize = 0;
        while j < self.seen.len()
            invariant
                j <= self.seen@.len(),
                self.seen@ == all,
                forall|id: u64|
                    #[trigger] kept@.contains(id) <==> (exists|k: int|
                        0 <= k < j && all[k] == id) && listed(listing@, id),
            decreases self.seen@.len() - j,
        {
            let id = self.seen[j];
            let ghost before = kept@;
            if listing_has(listing, id) {
                kept.push(id);
            }
            assert forall|x: u64| #[trigger]
                kept@.contains(x) <==> (exists|k: int| 0 <= k < j + 1 && all[k] == x) && listed(
                    listing@,
                    x,
                ) by {
                if listed(listing@, id) {
                    assert(kept@ == before.push(id));
                    if kept@.contains(x) && x != id {
                        let m = choose|m: int| 0 <= m < kept@.len() && kept@[m] == x;
                        assert(before[m] == x);
                        assert(before.contains(x));
                    }
                } else {
                    assert(kept@ == before);
                }
                if (exists|k: int| 0 <= k < j + 1 && all[k] == x) && listed(listing@, x) {
                    let k = choose|k: int| 0 <= k < j + 1 && all[k] == x;
                    if k == j {
                        assert(kept@[kept@.len() - 1] == x);
                    } else {
                        assert(exists|k: int| 0 <= k < j && all[k] == x);
                        assert(before.contains(x));
                        let m = choose|m: int| 0 <= m < before.len() && before[m] == x;
                        assert(kept@[m] == x);
                    }
                }
            }
            j = j + 1;
        }
        self.seen = kept;
        proof {
            assert forall|id: u64| #[trigger]
                self.seen@.contains(id) <==> ((seen0.contains(id) || picked_ids(
                    listing@,
                    tick_picks(seen0, listing@),
                ).contains(id)) && listed(listing@, id)) by {
                let p = picked_ids(listing@, tick_picks(seen0, listing@));
                if exists|k: int| 0 <= k < all.len() && all[k] == id {
                    let k = choose|k: int| 0 <= k < all.len() && all[k] == id;
                    if k < seen0.len() {
                        assert(seen0[k] == id);
                    } else {
                        assert(p[k - seen0.len()] == id);
                    }
                }
                if seen0.contains(id) {
                    let k = choose|k: int| 0 <= k < seen0.len() && seen0[k] == id;
                    assert(all[k] == id);
                }
                if p.contains(id) {
                    let k = choose|k: int| 0 <= k < p.len() && p[k] == id;
                    assert(all[seen0.len() + k] == id);
                }
            }
        }
        queued
    }
}

} // verus!
