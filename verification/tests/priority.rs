use std::cmp::Ordering;

use orderbook::quantities::BaseLots;
use orderbook::quantities::Ticks;
use orderbook::quantities::WrapperU64;
use orderbook::state::FIFOOrderId;
use orderbook::state::FIFORestingOrder;
use orderbook::state::OrderId;
use orderbook::state::RestingOrder;
use orderbook::state::SelfTradeBehavior;
use orderbook::state::Side;
use orderbook::state::BID_SEQUENCE_BIT;

fn bid(ticks: u64, arrival: u64) -> FIFOOrderId {
    FIFOOrderId::new_from_untyped(ticks, BID_SEQUENCE_BIT | arrival)
}

fn ask(ticks: u64, arrival: u64) -> FIFOOrderId {
    FIFOOrderId::new_from_untyped(ticks, arrival)
}

#[test]
fn side_is_the_top_bit_of_the_sequence_number() {
    assert_eq!(Side::from_order_sequence_number(0), Side::Ask);
    assert_eq!(Side::from_order_sequence_number(1), Side::Ask);
    assert_eq!(Side::from_order_sequence_number((1 << 63) - 1), Side::Ask);
    assert_eq!(Side::from_order_sequence_number(1 << 63), Side::Bid);
    assert_eq!(Side::from_order_sequence_number(u64::MAX), Side::Bid);
    assert_eq!(BID_SEQUENCE_BIT, 1 << 63);
}

#[test]
fn opposite_toggles_the_side() {
    assert_eq!(Side::Bid.opposite(), Side::Ask);
    assert_eq!(Side::Ask.opposite(), Side::Bid);
    assert_eq!(Side::Bid.opposite().opposite(), Side::Bid);
}

#[test]
fn self_trade_behaviors_are_distinct() {
    assert_ne!(SelfTradeBehavior::DecrementTake, SelfTradeBehavior::CancelProvide);
    assert_ne!(SelfTradeBehavior::CancelProvide, SelfTradeBehavior::AbortTransaction);
    assert_ne!(SelfTradeBehavior::DecrementTake, SelfTradeBehavior::AbortTransaction);
}

#[test]
fn identity_keeps_price_and_sequence_number() {
    let id = FIFOOrderId::new(Ticks::new(250), 9);
    assert_eq!(id.price_in_ticks, Ticks::new(250));
    assert_eq!(id.order_sequence_number, 9);
    assert_eq!(id.price_in_ticks(), 250);
    assert_eq!(id, FIFOOrderId::new_from_untyped(250, 9));
}

#[test]
fn default_identity_and_order_are_all_zero() {
    assert_eq!(FIFOOrderId::default(), FIFOOrderId::new_from_untyped(0, 0));
    assert_eq!(FIFORestingOrder::default(), FIFORestingOrder::new(0, BaseLots::new(0), 0, 0));
    assert!(!FIFORestingOrder::default().is_expired(u64::MAX, u64::MAX));
}

#[test]
fn asks_rank_by_lower_price_then_earlier_arrival() {
    assert_eq!(ask(99, 5).cmp(&ask(100, 1)), Ordering::Less);
    assert_eq!(ask(100, 1).cmp(&ask(99, 5)), Ordering::Greater);
    assert_eq!(ask(100, 1).cmp(&ask(100, 2)), Ordering::Less);
    assert_eq!(ask(100, 2).cmp(&ask(100, 1)), Ordering::Greater);
    assert_eq!(ask(100, 2).cmp(&ask(100, 2)), Ordering::Equal);
}

#[test]
fn bids_rank_by_higher_price_then_earlier_arrival() {
    assert_eq!(bid(101, 5).cmp(&bid(100, 1)), Ordering::Less);
    assert_eq!(bid(100, 1).cmp(&bid(101, 5)), Ordering::Greater);
    assert_eq!(bid(100, 1).cmp(&bid(100, 2)), Ordering::Less);
    assert_eq!(bid(100, 2).cmp(&bid(100, 1)), Ordering::Greater);
    assert_eq!(bid(100, 2).cmp(&bid(100, 2)), Ordering::Equal);
}

#[test]
fn comparison_operators_follow_priority() {
    assert!(ask(99, 5) < ask(100, 1));
    assert!(bid(101, 5) < bid(100, 1));
    assert!(bid(100, 7) > bid(100, 3));
    assert_eq!(ask(100, 1).partial_cmp(&ask(100, 2)), Some(Ordering::Less));
    assert_eq!(bid(100, 1).partial_cmp(&bid(100, 1)), Some(Ordering::Equal));
}

#[test]
fn priority_is_a_strict_total_order_on_a_sample() {
    let mut ids = Vec::new();
    for ticks in [0u64, 1, 100, u64::MAX] {
        for arrival in [0u64, 1, 2, (1 << 63) - 1] {
            ids.push((ask(ticks, arrival), bid(ticks, arrival)));
        }
    }
    for side in 0..2 {
        let pick = |pair: &(FIFOOrderId, FIFOOrderId)| if side == 0 { pair.0 } else { pair.1 };
        for a in ids.iter().map(pick) {
            assert_eq!(a.cmp(&a), Ordering::Equal);
            for b in ids.iter().map(pick) {
                if a != b {
                    assert_ne!(a.cmp(&b), Ordering::Equal);
                    assert_eq!(a.cmp(&b) == Ordering::Less, b.cmp(&a) == Ordering::Greater);
                }
                for c in ids.iter().map(pick) {
                    if a.cmp(&b) == Ordering::Less && b.cmp(&c) == Ordering::Less {
                        assert_eq!(a.cmp(&c), Ordering::Less);
                    }
                }
            }
        }
    }
}

#[test]
fn order_without_limits_never_expires() {
    let order = FIFORestingOrder::new_default(3, BaseLots::new(10));
    assert_eq!(order.last_valid_slot, 0);
    assert_eq!(order.last_valid_unix_timestamp_in_seconds, 0);
    assert!(!order.is_expired(0, 0));
    assert!(!order.is_expired(1, 1));
    assert!(!order.is_expired(u64::MAX, u64::MAX));
    assert_eq!(order.last_valid_slot(), None);
    assert_eq!(order.last_valid_unix_timestamp_in_seconds(), None);
}

#[test]
fn order_expires_once_the_slot_is_past_its_limit() {
    let order = FIFORestingOrder::new_with_last_valid_slot(3, BaseLots::new(10), 100);
    assert!(order.is_expired(101, 0));
    assert!(!order.is_expired(100, 0));
    assert!(!order.is_expired(99, u64::MAX));
    assert_eq!(order.last_valid_slot(), Some(100));
    assert_eq!(order.last_valid_unix_timestamp_in_seconds(), None);
}

#[test]
fn order_expires_once_the_time_is_past_its_limit_whatever_the_slot() {
    let order = FIFORestingOrder::new_with_last_valid_unix_timestamp(3, BaseLots::new(10), 1_700);
    assert!(order.is_expired(0, 1_701));
    assert!(order.is_expired(u64::MAX, 1_701));
    assert!(!order.is_expired(u64::MAX, 1_700));
    assert_eq!(order.last_valid_slot(), None);
    assert_eq!(order.last_valid_unix_timestamp_in_seconds(), Some(1_700));
}

#[test]
fn either_limit_alone_expires_the_order() {
    let order = FIFORestingOrder::new(3, BaseLots::new(10), 100, 1_700);
    assert!(!order.is_expired(100, 1_700));
    assert!(order.is_expired(101, 1_700));
    assert!(order.is_expired(100, 1_701));
    assert!(order.is_expired(101, 1_701));
    assert_eq!(order.size(), 10);
    assert_eq!(order.trader_index, 3);
}
