//! A model of the two gossip tables with their conflict-ignoring insert
//! semantics: each table is keyed uniquely, and an insert whose key is
//! already present is silently dropped, so the first write wins and replays
//! are idempotent no-ops.
//!
//! The surrounding process mirrors every accepted row to the relational
//! store with `ON CONFLICT DO NOTHING` inserts, which have exactly the
//! semantics stated here.

use vstd::prelude::*;

verus! {

/// A row of the announcements table. Announcements are immutable: one row
/// per channel, keyed by `scid_hex`.
pub struct AnnouncementRow {
    pub scid_hex: String,
    pub block_height: u32,
    pub chain_hash_hex: String,
    pub announcement_signed: Vec<u8>,
}

/// A row of the updates table, keyed by `composite_index`.
pub struct UpdateRow {
    pub composite_index: String,
    pub chain_hash_hex: String,
    pub scid_hex: String,
    pub timestamp: u32,
    pub channel_flags: u8,
    pub direction: u8,
    pub disable: bool,
    pub cltv_expiry_delta: u16,
    pub htlc_minimum_msat: u64,
    pub fee_base_msat: u32,
    pub fee_proportional_millionths: u32,
    pub htlc_maximum_msat: u64,
    pub update_signed: Vec<u8>,
}

/// Whether some announcement row carries the given key.
pub open spec fn ann_has_key(rows: Seq<AnnouncementRow>, key: Seq<char>) -> bool {
    exists|i: int| 0 <= i < rows.len() && #[trigger] rows[i].scid_hex@ == key
}

/// Whether some update row carries the given key.
pub open spec fn upd_has_key(rows: Seq<UpdateRow>, key: Seq<char>) -> bool {
    exists|i: int| 0 <= i < rows.len() && #[trigger] rows[i].composite_index@ == key
}

/// The effect of a conflict-ignoring insert on the announcements table:
/// dropped when the key is present, appended otherwise.
pub open spec fn ann_inserted(
    old_rows: Seq<AnnouncementRow>,
    new_rows: Seq<AnnouncementRow>,
    row: AnnouncementRow,
) -> bool {
    if ann_has_key(old_rows, row.scid_hex@) {
        new_rows == old_rows
    } else {
        new_rows == old_rows.push(row)
    }
}

/// The effect of a conflict-ignoring insert on the updates table.
pub open spec fn upd_inserted(
    old_rows: Seq<UpdateRow>,
    new_rows: Seq<UpdateRow>,
    row: UpdateRow,
) -> bool {
    if upd_has_key(old_rows, row.composite_index@) {
        new_rows == old_rows
    } else {
        new_rows == old_rows.push(row)
    }
}

/// The persisted rows: announcements and updates, each with unique keys.
pub struct GossipStore {
    pub announcements: Vec<AnnouncementRow>,
    pub updates: Vec<UpdateRow>,
}

impl GossipStore {
    /// Keys are unique within each table.
    pub open spec fn wf(self) -> bool {
        (forall|i: int, j: int|
            0 <= i < j < self.announcements@.len() ==> #[trigger] self.announcements@[i].scid_hex@
                != #[trigger] self.announcements@[j].scid_hex@) && (forall|i: int, j: int|
            0 <= i < j < self.updates@.len() ==> #[trigger] self.updates@[i].composite_index@
                != #[trigger] self.updates@[j].composite_index@)
    }

    /// An empty store.
    pub fn new() -> (s: GossipStore)
        ensures
            s.announcements@.len() == 0,
            s.updates@.len() == 0,
            s.wf(),
    {
        GossipStore { announcements: Vec::new(), updates: Vec::new() }
    }

    /// Insert an announcement row, ignoring it when a row with the same
    /// `scid_hex` key is already present.
    pub fn insert_announcement(&mut self, row: AnnouncementRow)
        requires
            old(self).wf(),
        ensures
            final(self).wf(),
            ann_inserted(old(self).announcements@, final(self).announcements@, row),
            final(self).updates@ == old(self).updates@,
    {
        let n = self.announcements.len();
        let mut i: usize = 0;
        while i < n
            invariant
                n == self.announcements@.len(),
                i <= n,
                old(self).wf(),
                *self == *old(self),
                forall|j: int| 0 <= j < i ==> #[trigger] self.announcements@[j].scid_hex@
                    != row.scid_hex@,
            decreases n - i,
        {
            if self.announcements[i].scid_hex == row.scid_hex {
                proof {
                    assert(ann_has_key(self.announcements@, row.scid_hex@));
                }
                return ;
            }
            i += 1;
        }
        proof {
            assert(!ann_has_key(self.announcements@, row.scid_hex@));
        }
        self.announcements.push(row);
    }

    /// Insert an update row, ignoring it when a row with the same
    /// `composite_index` key is already present.
    pub fn insert_update(&mut self, row: UpdateRow)
        requires
            old(self).wf(),
        ensures
            final(self).wf(),
            upd_inserted(old(self).updates@, final(self).updates@, row),
            final(self).announcements@ == old(self).announcements@,
    {
        let n = self.updates.len();
        let mut i: usize = 0;
        while i < n
            invariant
                n == self.updates@.len(),
                i <= n,
                old(self).wf(),
                *self == *old(self),
                forall|j: int| 0 <= j < i ==> #[trigger] self.updates@[j].composite_index@
                    != row.composite_index@,
            decreases n - i,
        {
            if self.updates[i].composite_index == row.composite_index {
                proof {
                    assert(upd_has_key(self.updates@, row.composite_index@));
                }
                return ;
            }
            i += 1;
        }
        proof {
            assert(!upd_has_key(self.updates@, row.composite_index@));
        }
        self.updates.push(row);
    }
}

/// Two announcements with the same key, inserted into a store that does not
/// yet hold that key, leave exactly one row: the first-inserted one. The
/// second insert changes nothing.
pub proof fn lemma_announcement_first_write_wins(
    s0: Seq<AnnouncementRow>,
    s1: Seq<AnnouncementRow>,
    s2: Seq<AnnouncementRow>,
    r1: AnnouncementRow,
    r2: AnnouncementRow,
)
    requires
        !ann_has_key(s0, r1.scid_hex@),
        r2.scid_hex@ == r1.scid_hex@,
        ann_inserted(s0, s1, r1),
        ann_inserted(s1, s2, r2),
    ensures
        s1 == s0.push(r1),
        s2 == s0.push(r1),
{
    assert(s1[s0.len() as int].scid_hex@ == r2.scid_hex@);
    assert(ann_has_key(s1, r2.scid_hex@));
}

/// Two updates with the same composite key, inserted into a store that does
/// not yet hold that key, leave exactly one row: the first-inserted one.
pub proof fn lemma_update_first_write_wins(
    s0: Seq<UpdateRow>,
    s1: Seq<UpdateRow>,
    s2: Seq<UpdateRow>,
    r1: UpdateRow,
    r2: UpdateRow,
)
    requires
        !upd_has_key(s0, r1.composite_index@),
        r2.composite_index@ == r1.composite_index@,
        upd_inserted(s0, s1, r1),
        upd_inserted(s1, s2, r2),
    ensures
        s1 == s0.push(r1),
        s2 == s0.push(r1),
{
    assert(s1[s0.len() as int].composite_index@ == r2.composite_index@);
    assert(upd_has_key(s1, r2.composite_index@));
}

} // verus!
