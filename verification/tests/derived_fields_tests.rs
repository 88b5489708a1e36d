use gossip_persister::block_height;
use gossip_persister::composite_index;
use gossip_persister::direction;
use gossip_persister::disable;

#[test]
fn block_height_is_top_24_bits() {
    assert_eq!(block_height(0), 0);
    assert_eq!(block_height(0x0000010000000000), 1);
    assert_eq!(block_height(0x0000ff0000000000), 0xff);
    assert_eq!(block_height(u64::MAX), 0xff_ffff);
    assert_eq!(block_height(700_000u64 << 40 | 123u64 << 16 | 4), 700_000);
}

#[test]
fn block_height_ignores_low_40_bits() {
    let height = 654_321u64;
    let base = height << 40;
    for low in [0u64, 1, 0xff, 0xff_ffff_ffff] {
        assert_eq!(block_height(base | low), height as u32);
    }
}

#[test]
fn direction_and_disable_for_all_flag_values() {
    for flags in 0u8..=255 {
        assert_eq!(direction(flags), flags & 1);
        assert_eq!(disable(flags), (flags & 2) != 0);
    }
}

#[test]
fn composite_index_joins_key_parts() {
    assert_eq!(
        composite_index(0x0000010000000000, 100, 0b01),
        "0000010000000000:100:1"
    );
    assert_eq!(composite_index(0, 0, 0), "0000000000000000:0:0");
    assert_eq!(
        composite_index(u64::MAX, u32::MAX, 0xff),
        "ffffffffffffffff:4294967295:1"
    );
    // only the direction bit of the flags reaches the key
    assert_eq!(composite_index(1, 7, 0b10), "0000000000000001:7:0");
    assert_eq!(composite_index(1, 7, 0b11), "0000000000000001:7:1");
}
