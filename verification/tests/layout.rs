use orderbook::quantities::BaseLots;
use orderbook::quantities::QuoteLots;
use orderbook::quantities::WrapperU64;
use orderbook::state::layout::read_quad;
use orderbook::state::layout::read_word;
use orderbook::state::layout::write_quad;
use orderbook::state::layout::write_word;
use orderbook::state::layout::ORDER_ID_BYTES;
use orderbook::state::layout::RESTING_ORDER_BYTES;
use orderbook::state::layout::TRADER_STATE_BYTES;
use orderbook::state::layout::WORD_BYTES;
use orderbook::state::FIFOOrderId;
use orderbook::state::FIFORestingOrder;
use orderbook::state::TraderState;

#[test]
fn record_sizes_are_fixed() {
    assert_eq!(WORD_BYTES, 8);
    assert_eq!(ORDER_ID_BYTES, 16);
    assert_eq!(RESTING_ORDER_BYTES, 32);
    assert_eq!(TRADER_STATE_BYTES, 32);
}

#[test]
fn word_is_stored_least_significant_byte_first() {
    let mut region = [0xffu8; 12];
    assert!(write_word(&mut region, 2, 0x0102_0304_0506_0708));
    assert_eq!(region, [0xff, 0xff, 8, 7, 6, 5, 4, 3, 2, 1, 0xff, 0xff]);
    assert_eq!(read_word(&region, 2), Some(0x0102_0304_0506_0708));
    assert_eq!(read_word(&region, 4), Some(0xffff_0102_0304_0506));
}

#[test]
fn word_beyond_the_region_is_refused() {
    let mut region = [7u8; 12];
    assert_eq!(read_word(&region, 5), None);
    assert_eq!(read_word(&region, 12), None);
    assert_eq!(read_word(&region, usize::MAX), None);
    assert_eq!(read_word(&region, 4), Some(0x0707_0707_0707_0707));
    assert!(!write_word(&mut region, 5, 1));
    assert!(!write_word(&mut region, usize::MAX, 1));
    assert_eq!(region, [7u8; 12]);
}

#[test]
fn four_words_fill_thirty_two_bytes() {
    let mut region = vec![0xaau8; 40];
    assert!(write_quad(&mut region, (1, 2, 3, u64::MAX)));
    assert_eq!(read_quad(&region), Some((1, 2, 3, u64::MAX)));
    assert_eq!(&region[0..8], &[1, 0, 0, 0, 0, 0, 0, 0]);
    assert_eq!(&region[8..16], &[2, 0, 0, 0, 0, 0, 0, 0]);
    assert_eq!(&region[24..32], &[0xff; 8]);
    assert_eq!(&region[32..], &[0xaa; 8]);
    let mut short = vec![0u8; 31];
    assert!(!write_quad(&mut short, (1, 2, 3, 4)));
    assert_eq!(short, vec![0u8; 31]);
    assert_eq!(read_quad(&short), None);
}

#[test]
fn resting_order_survives_the_region() {
    let order = FIFORestingOrder::new(7, BaseLots::new(30), 100, 1_700);
    let mut region = vec![0x55u8; 48];
    assert!(order.store(&mut region));
    assert_eq!(FIFORestingOrder::load(&region), Some(order));
    assert_eq!(read_quad(&region), Some((7, 30, 100, 1_700)));
    assert_eq!(&region[32..], &[0x55; 16]);
}

#[test]
fn changed_field_is_seen_by_a_fresh_view() {
    let mut region = vec![0u8; RESTING_ORDER_BYTES];
    assert!(FIFORestingOrder::new(7, BaseLots::new(30), 100, 1_700).store(&mut region));
    let mut view = FIFORestingOrder::load(&region).unwrap();
    view.num_base_lots = BaseLots::new(12);
    assert!(view.store(&mut region));
    let fresh = FIFORestingOrder::load(&region).unwrap();
    assert_eq!(fresh, FIFORestingOrder::new(7, BaseLots::new(12), 100, 1_700));
    let bytes = region.clone();
    assert!(fresh.store(&mut region));
    assert_eq!(region, bytes);
}

#[test]
fn identity_survives_the_region() {
    let id = FIFOOrderId::new_from_untyped(250, (1 << 63) | 9);
    let mut region = [0u8; 16];
    assert!(id.store(&mut region));
    assert_eq!(FIFOOrderId::load(&region), Some(id));
    assert_eq!(region, [250, 0, 0, 0, 0, 0, 0, 0, 9, 0, 0, 0, 0, 0, 0, 0x80]);
    let mut short = [0u8; 15];
    assert!(!id.store(&mut short));
    assert_eq!(FIFOOrderId::load(&short), None);
}

#[test]
fn ledger_survives_the_region() {
    let state = TraderState {
        quote_lots_locked: QuoteLots::new(1),
        quote_lots_free: QuoteLots::new(2),
        base_lots_locked: BaseLots::new(3),
        base_lots_free: BaseLots::new(4),
    };
    let mut region = vec![0u8; 32];
    assert!(state.store(&mut region));
    assert_eq!(TraderState::load(&region), Some(state));
    assert_eq!(read_quad(&region), Some((1, 2, 3, 4)));
    assert_eq!(TraderState::load(&region[..31]), None);
    assert_eq!(FIFORestingOrder::load(&region[..31]), None);
}

#[test]
fn every_region_of_the_right_size_is_a_record() {
    let region: Vec<u8> = (0..32u8).map(|byte| byte.wrapping_mul(37)).collect();
    let order = FIFORestingOrder::load(&region).unwrap();
    let mut copy = vec![0u8; 32];
    assert!(order.store(&mut copy));
    assert_eq!(copy, region);
}
