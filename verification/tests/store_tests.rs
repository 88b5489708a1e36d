use gossip_persister::AnnouncementRow;
use gossip_persister::GossipStore;
use gossip_persister::UpdateRow;

fn announcement_row(scid_hex: &str, payload: Vec<u8>) -> AnnouncementRow {
    AnnouncementRow {
        scid_hex: scid_hex.to_string(),
        block_height: 1,
        chain_hash_hex: "00".repeat(32),
        announcement_signed: payload,
    }
}

fn update_row(composite_index: &str, fee_base_msat: u32, cltv_expiry_delta: u16) -> UpdateRow {
    UpdateRow {
        composite_index: composite_index.to_string(),
        chain_hash_hex: "00".repeat(32),
        scid_hex: "0000010000000000".to_string(),
        timestamp: 100,
        channel_flags: 1,
        direction: 1,
        disable: false,
        cltv_expiry_delta,
        htlc_minimum_msat: 1000,
        fee_base_msat,
        fee_proportional_millionths: 10,
        htlc_maximum_msat: 100_000,
        update_signed: vec![1, 2],
    }
}

#[test]
fn duplicate_announcement_keeps_first_payload() {
    let mut store = GossipStore::new();
    store.insert_announcement(announcement_row("0000010000000000", vec![1, 2, 3]));
    store.insert_announcement(announcement_row("0000010000000000", vec![9, 9, 9]));
    assert_eq!(store.announcements.len(), 1);
    assert_eq!(store.announcements[0].announcement_signed, vec![1, 2, 3]);
}

#[test]
fn distinct_announcements_are_both_kept() {
    let mut store = GossipStore::new();
    store.insert_announcement(announcement_row("0000010000000000", vec![1]));
    store.insert_announcement(announcement_row("0000020000000000", vec![2]));
    assert_eq!(store.announcements.len(), 2);
}

#[test]
fn duplicate_update_keeps_first_values() {
    let mut store = GossipStore::new();
    store.insert_update(update_row("0000010000000000:100:1", 1000, 40));
    store.insert_update(update_row("0000010000000000:100:1", 2000, 80));
    assert_eq!(store.updates.len(), 1);
    assert_eq!(store.updates[0].fee_base_msat, 1000);
    assert_eq!(store.updates[0].cltv_expiry_delta, 40);
}

#[test]
fn updates_with_different_keys_are_both_kept() {
    let mut store = GossipStore::new();
    store.insert_update(update_row("0000010000000000:100:1", 1000, 40));
    store.insert_update(update_row("0000010000000000:101:1", 2000, 80));
    store.insert_update(update_row("0000010000000000:100:0", 3000, 20));
    assert_eq!(store.updates.len(), 3);
}

#[test]
fn update_insert_leaves_announcements_alone() {
    let mut store = GossipStore::new();
    store.insert_announcement(announcement_row("0000010000000000", vec![1]));
    store.insert_update(update_row("0000010000000000:100:1", 1000, 40));
    assert_eq!(store.announcements.len(), 1);
    assert_eq!(store.updates.len(), 1);
}
