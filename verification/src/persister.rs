//! The persister actor's state machine.
//!
//! The actor owns a two-state lifecycle: `AwaitingSync` until the first
//! sync-complete marker arrives, `Live` from then on. `Live` is terminal,
//! and the downstream completion signal is folded into the transition, so it
//! fires exactly on `AwaitingSync -> Live` and never again.
//!
//! [`Persister::handle_message`] is one turn of the actor loop: it decides,
//! for one incoming message, every externally visible action — whether to
//! log progress, whether to snapshot the network graph, whether to send the
//! completion signal — and applies the store write the message calls for.
//! The surrounding process supplies messages in arrival order and a
//! monotonic-clock reading, and performs the actions.

use vstd::prelude::*;

use crate::hex::hex_of;
use crate::hex::hex_str;
use crate::store::AnnouncementRow;
use crate::store::GossipStore;
use crate::store::UpdateRow;
use crate::store::ann_has_key;
use crate::store::ann_inserted;
use crate::store::upd_has_key;
use crate::store::upd_inserted;
use crate::types::AnnouncementContents;
use crate::types::GossipMessage;
use crate::types::UpdateContents;
use crate::types::block_height;
use crate::types::composite_index;
use crate::types::composite_index_of;
use crate::types::direction;
use crate::types::disable;
use crate::types::scid_hex;
use crate::types::u64_be_bytes;

verus! {

/// Seconds between network-graph snapshots.
pub const CACHE_INTERVAL_SECS: u64 = 600;

/// Capacity of the bounded ingestion channel feeding the actor.
pub const CHANNEL_CAPACITY: usize = 100;

/// Progress-log interval while backfill is still running.
pub const BACKFILL_LOG_INTERVAL: u64 = 10000;

/// Progress-log interval once the actor is live.
pub const LIVE_LOG_INTERVAL: u64 = 50;

/// Lifecycle of the actor: `AwaitingSync` until the first sync-complete
/// marker, `Live` from then on. `Live` is terminal.
#[derive(Clone, Copy, Debug, PartialEq, Eq, Structural)]
pub enum SyncState {
    AwaitingSync,
    Live,
}

/// The row one message asks the relational store to insert, if any. The
/// store applies it with conflict-ignoring semantics, the same semantics
/// [`GossipStore`] models.
pub enum RowWrite {
    NoRow,
    AnnouncementWrite(AnnouncementRow),
    UpdateWrite(UpdateRow),
}

/// The external actions one message calls for, performed by the process
/// around the actor.
pub struct StepEffects {
    /// Emit a progress log line.
    pub log_progress: bool,
    /// Prune the shared network graph and write its snapshot file.
    pub cache_graph: bool,
    /// Deliver the one-shot completion signal to the downstream server.
    pub send_completion: bool,
    /// Mirror this row to the relational store.
    pub write: RowWrite,
}

/// The lifecycle state after a message: any sync-complete marker makes the
/// actor live; nothing else changes the state.
pub open spec fn next_sync_state(state: SyncState, msg: GossipMessage) -> SyncState {
    if msg is SyncComplete {
        SyncState::Live
    } else {
        state
    }
}

/// The completion signal fires exactly on the first sync-complete marker:
/// the one that finds the actor still awaiting sync.
pub open spec fn sends_completion(state: SyncState, msg: GossipMessage) -> bool {
    msg is SyncComplete && state is AwaitingSync
}

/// The persisted-message counter after a message: control markers are never
/// counted, every announcement or update counts exactly once.
pub open spec fn next_count(count: u64, msg: GossipMessage) -> int {
    if msg is SyncComplete {
        count as int
    } else {
        count as int + 1
    }
}

/// Progress-log interval for a lifecycle state.
pub open spec fn log_threshold(state: SyncState) -> int {
    if state is AwaitingSync {
        BACKFILL_LOG_INTERVAL as int
    } else {
        LIVE_LOG_INTERVAL as int
    }
}

/// A progress line is logged at message #1 and at every multiple of the
/// interval the actor's state prescribed when the message arrived.
pub open spec fn logs_progress(state: SyncState, new_count: int) -> bool {
    new_count == 1 || (new_count > 0 && new_count % log_threshold(state) == 0)
}

/// The announcements-table row derived from an announcement.
pub open spec fn announcement_row_for(row: AnnouncementRow, a: AnnouncementContents) -> bool {
    &&& row.scid_hex@ == hex_of(u64_be_bytes(a.short_channel_id))
    &&& row.block_height == a.short_channel_id >> 40
    &&& row.chain_hash_hex@ == hex_of(a.chain_hash@)
    &&& row.announcement_signed@ == a.payload@
}

/// The updates-table row derived from an update.
pub open spec fn update_row_for(row: UpdateRow, u: UpdateContents) -> bool {
    &&& row.composite_index@ == composite_index_of(u.short_channel_id, u.timestamp, u.channel_flags)
    &&& row.chain_hash_hex@ == hex_of(u.chain_hash@)
    &&& row.scid_hex@ == hex_of(u64_be_bytes(u.short_channel_id))
    &&& row.timestamp == u.timestamp
    &&& row.channel_flags == u.channel_flags
    &&& row.direction == u.channel_flags & 1
    &&& row.disable == ((u.channel_flags & 2) != 0)
    &&& row.cltv_expiry_delta == u.cltv_expiry_delta
    &&& row.htlc_minimum_msat == u.htlc_minimum_msat
    &&& row.fee_base_msat == u.fee_base_msat
    &&& row.fee_proportional_millionths == u.fee_proportional_millionths
    &&& row.htlc_maximum_msat == u.htlc_maximum_msat
    &&& row.update_signed@ == u.payload@
}

/// The effect of one announcement on the announcements table: its derived
/// row is inserted, first write wins.
pub open spec fn ann_dispatched(
    old_rows: Seq<AnnouncementRow>,
    new_rows: Seq<AnnouncementRow>,
    a: AnnouncementContents,
) -> bool {
    if ann_has_key(old_rows, hex_of(u64_be_bytes(a.short_channel_id))) {
        new_rows == old_rows
    } else {
        new_rows.len() == old_rows.len() + 1 && new_rows.drop_last() == old_rows
            && announcement_row_for(new_rows.last(), a)
    }
}

/// The effect of one update on the updates table: its derived row is
/// inserted, first write wins on the composite key.
pub open spec fn upd_dispatched(
    old_rows: Seq<UpdateRow>,
    new_rows: Seq<UpdateRow>,
    u: UpdateContents,
) -> bool {
    if upd_has_key(old_rows, composite_index_of(u.short_channel_id, u.timestamp, u.channel_flags)) {
        new_rows == old_rows
    } else {
        new_rows.len() == old_rows.len() + 1 && new_rows.drop_last() == old_rows
            && update_row_for(new_rows.last(), u)
    }
}

/// A fresh vector with the same bytes.
fn copy_bytes(v: &Vec<u8>) -> (r: Vec<u8>)
    ensures
        r@ == v@,
{
    let mut r: Vec<u8> = Vec::new();
    let mut i: usize = 0;
    while i < v.len()
        invariant
            i <= v@.len(),
            r@ == v@.take(i as int),
        decreases v@.len() - i,
    {
        r.push(v[i]);
        proof {
            assert(v@.take(i + 1).drop_last() =~= v@.take(i as int));
            assert(r@ =~= v@.take(i + 1));
        }
        i += 1;
    }
    proof {
        assert(v@.take(v@.len() as int) =~= v@);
    }
    r
}

/// Build the announcements-table row for an announcement.
pub fn make_announcement_row(a: &AnnouncementContents) -> (row: AnnouncementRow)
    ensures
        announcement_row_for(row, *a),
{
    let scid_key = scid_hex(a.short_channel_id);
    let height = block_height(a.short_channel_id);
    let chain_hash_hex = hex_str(a.chain_hash.as_slice());
    AnnouncementRow {
        scid_hex: scid_key,
        block_height: height,
        chain_hash_hex,
        announcement_signed: copy_bytes(&a.payload),
    }
}

/// Build the updates-table row for an update.
pub fn make_update_row(u: &UpdateContents) -> (row: UpdateRow)
    ensures
        update_row_for(row, *u),
{
    let key = composite_index(u.short_channel_id, u.timestamp, u.channel_flags);
    let scid_key = scid_hex(u.short_channel_id);
    let chain_hash_hex = hex_str(u.chain_hash.as_slice());
    let dir = direction(u.channel_flags);
    let dis = disable(u.channel_flags);
    UpdateRow {
        composite_index: key,
        chain_hash_hex,
        scid_hex: scid_key,
        timestamp: u.timestamp,
        channel_flags: u.channel_flags,
        direction: dir,
        disable: dis,
        cltv_expiry_delta: u.cltv_expiry_delta,
        htlc_minimum_msat: u.htlc_minimum_msat,
        fee_base_msat: u.fee_base_msat,
        fee_proportional_millionths: u.fee_proportional_millionths,
        htlc_maximum_msat: u.htlc_maximum_msat,
        update_signed: copy_bytes(&u.payload),
    }
}

/// The persister actor: lifecycle state, persisted-message counter, and the
/// rows written so far.
pub struct Persister {
    pub sync_state: SyncState,
    pub persisted_count: u64,
    pub store: GossipStore,
}

impl Persister {
    /// The store's key-uniqueness invariant, maintained by every step.
    pub open spec fn wf(self) -> bool {
        self.store.wf()
    }

    /// A fresh actor: awaiting sync, nothing counted, nothing stored.
    pub fn new() -> (p: Persister)
        ensures
            p.sync_state is AwaitingSync,
            p.persisted_count == 0,
            p.store.announcements@.len() == 0,
            p.store.updates@.len() == 0,
            p.wf(),
    {
        Persister {
            sync_state: SyncState::AwaitingSync,
            persisted_count: 0,
            store: GossipStore::new(),
        }
    }

    /// One turn of the actor loop.
    ///
    /// `elapsed_since_cache_secs` is the monotonic-clock time since the last
    /// graph snapshot (or since startup); the caller resets its clock
    /// whenever the returned effects ask for a snapshot.
    pub fn handle_message(&mut self, msg: GossipMessage, elapsed_since_cache_secs: u64) -> (eff:
        StepEffects)
        requires
            old(self).wf(),
            old(self).persisted_count < u64::MAX,
        ensures
            final(self).wf(),
            final(self).sync_state == next_sync_state(old(self).sync_state, msg),
            final(self).persisted_count == next_count(old(self).persisted_count, msg),
            eff.send_completion == sends_completion(old(self).sync_state, msg),
            eff.cache_graph == (elapsed_since_cache_secs >= CACHE_INTERVAL_SECS),
            eff.log_progress == logs_progress(
                old(self).sync_state,
                next_count(old(self).persisted_count, msg),
            ),
            msg is SyncComplete ==> final(self).store == old(self).store && eff.write is NoRow,
            msg matches GossipMessage::Announcement(a) ==> final(self).store.updates@ == old(
                self,
            ).store.updates@ && ann_dispatched(
                old(self).store.announcements@,
                final(self).store.announcements@,
                a,
            ) && (eff.write matches RowWrite::AnnouncementWrite(r) && announcement_row_for(r, a)),
            msg matches GossipMessage::Update(u) ==> final(self).store.announcements@ == old(
                self,
            ).store.announcements@ && upd_dispatched(
                old(self).store.updates@,
                final(self).store.updates@,
                u,
            ) && (eff.write matches RowWrite::UpdateWrite(r) && update_row_for(r, u)),
    {
        let is_control = match &msg {
            GossipMessage::SyncComplete => true,
            _ => false,
        };
        if !is_control {
            self.persisted_count = self.persisted_count + 1;
        }
        let threshold: u64 = if self.sync_state == SyncState::AwaitingSync {
            BACKFILL_LOG_INTERVAL
        } else {
            LIVE_LOG_INTERVAL
        };
        let log_progress = self.persisted_count == 1 || (self.persisted_count > 0
            && self.persisted_count % threshold == 0);
        let cache_graph = elapsed_since_cache_secs >= CACHE_INTERVAL_SECS;
        let mut send_completion = false;
        let write: RowWrite = match msg {
            GossipMessage::SyncComplete => {
                if self.sync_state == SyncState::AwaitingSync {
                    send_completion = true;
                }
                self.sync_state = SyncState::Live;
                RowWrite::NoRow
            },
            GossipMessage::Announcement(a) => {
                let row = make_announcement_row(&a);
                let mirror = make_announcement_row(&a);
                let ghost grow = row;
                self.store.insert_announcement(row);
                proof {
                    let or = old(self).store.announcements@;
                    let nr = self.store.announcements@;
                    if !ann_has_key(or, grow.scid_hex@) {
                        assert(nr.drop_last() =~= or);
                    }
                }
                RowWrite::AnnouncementWrite(mirror)
            },
            GossipMessage::Update(u) => {
                let row = make_update_row(&u);
                let mirror = make_update_row(&u);
                let ghost grow = row;
                self.store.insert_update(row);
                proof {
                    let or = old(self).store.updates@;
                    let nr = self.store.updates@;
                    if !upd_has_key(or, grow.composite_index@) {
                        assert(nr.drop_last() =~= or);
                    }
                }
                RowWrite::UpdateWrite(mirror)
            },
        };
        StepEffects { log_progress, cache_graph, send_completion, write }
    }
}

/// How many completion signals a message stream causes, starting from a
/// given lifecycle state and stepping as `handle_message` does.
pub open spec fn completion_count(state: SyncState, msgs: Seq<GossipMessage>) -> int
    decreases msgs.len(),
{
    if msgs.len() == 0 {
        0
    } else {
        (if sends_completion(state, msgs[0]) {
            1int
        } else {
            0int
        }) + completion_count(next_sync_state(state, msgs[0]), msgs.drop_first())
    }
}

/// A live actor never sends another completion signal.
pub proof fn lemma_live_sends_no_completion(msgs: Seq<GossipMessage>)
    ensures
        completion_count(SyncState::Live, msgs) == 0,
    decreases msgs.len(),
{
    if msgs.len() > 0 {
        lemma_live_sends_no_completion(msgs.drop_first());
    }
}

/// The completion signal is delivered at most once over any message stream,
/// however many sync-complete markers it contains.
pub proof fn lemma_completion_at_most_once(state: SyncState, msgs: Seq<GossipMessage>)
    ensures
        completion_count(state, msgs) <= 1,
    decreases msgs.len(),
{
    if msgs.len() > 0 {
        if sends_completion(state, msgs[0]) {
            lemma_live_sends_no_completion(msgs.drop_first());
        } else {
            lemma_completion_at_most_once(next_sync_state(state, msgs[0]), msgs.drop_first());
        }
    }
}

/// A stream with at least one sync-complete marker, fed to a fresh actor,
/// delivers the completion signal exactly once.
pub proof fn lemma_completion_exactly_once(msgs: Seq<GossipMessage>)
    requires
        exists|i: int| 0 <= i < msgs.len() && (#[trigger] msgs[i]) is SyncComplete,
    ensures
        completion_count(SyncState::AwaitingSync, msgs) == 1,
    decreases msgs.len(),
{
    let i = choose|i: int| 0 <= i < msgs.len() && (#[trigger] msgs[i]) is SyncComplete;
    if msgs[0] is SyncComplete {
        lemma_live_sends_no_completion(msgs.drop_first());
    } else {
        assert(msgs.drop_first()[i - 1] is SyncComplete);
        lemma_completion_exactly_once(msgs.drop_first());
    }
}

} // verus!
