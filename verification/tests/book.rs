use orderbook::quantities::BaseLots;
use orderbook::quantities::WrapperU64;
use orderbook::state::markets::book::decode_key;
use orderbook::state::markets::book::decode_order;
use orderbook::state::markets::book::encode_key;
use orderbook::state::markets::book::encode_order;
use orderbook::state::Book;
use orderbook::state::FIFOOrderId;
use orderbook::state::FIFORestingOrder;
use orderbook::state::MarketError;
use orderbook::state::Side;
use orderbook::state::TraderTable;
use orderbook::state::TraderState;
use orderbook::state::BID_SEQUENCE_BIT;

fn resting(trader: u64, lots: u64) -> FIFORestingOrder {
    FIFORestingOrder::new_default(trader, BaseLots::new(lots))
}

fn bid(ticks: u64, arrival: u64) -> FIFOOrderId {
    FIFOOrderId::new_from_untyped(ticks, BID_SEQUENCE_BIT | arrival)
}

fn ask(ticks: u64, arrival: u64) -> FIFOOrderId {
    FIFOOrderId::new_from_untyped(ticks, arrival)
}

#[test]
fn key_holds_rank_above_sequence_number() {
    assert_eq!(encode_key(&ask(100, 2)), (100u128 << 64) | 2);
    assert_eq!(encode_key(&ask(0, 0)), 0);
    assert_eq!(
        encode_key(&bid(100, 2)),
        (((u64::MAX - 100) as u128) << 64) | (BID_SEQUENCE_BIT | 2) as u128
    );
    assert_eq!(encode_key(&bid(0, (1 << 63) - 1)), u128::MAX);
}

#[test]
fn key_and_identity_stand_for_each_other() {
    for id in [ask(0, 0), ask(100, 2), ask(u64::MAX, 7), bid(0, 0), bid(100, 2), bid(u64::MAX, 7)] {
        assert_eq!(decode_key(encode_key(&id)), id);
    }
    for key in [0u128, 1, 1 << 63, 1 << 64, (5 << 64) | (1 << 63) | 9, u128::MAX] {
        assert_eq!(encode_key(&decode_key(key)), key);
    }
}

#[test]
fn key_order_is_priority_order() {
    assert!(encode_key(&ask(99, 5)) < encode_key(&ask(100, 1)));
    assert!(encode_key(&ask(100, 1)) < encode_key(&ask(100, 2)));
    assert!(encode_key(&bid(101, 5)) < encode_key(&bid(100, 1)));
    assert!(encode_key(&bid(100, 1)) < encode_key(&bid(100, 2)));
}

#[test]
fn record_and_order_stand_for_each_other() {
    let order = FIFORestingOrder::new(7, BaseLots::new(30), 100, 1_700);
    assert_eq!(encode_order(&order), (7, 30, 100, 1_700));
    assert_eq!(decode_order((7, 30, 100, 1_700)), order);
}

#[test]
fn new_book_is_empty() {
    let mut book = Book::with_capacity::<8>(Side::Ask);
    assert_eq!(book.side(), Side::Ask);
    assert_eq!(book.capacity(), 8);
    assert_eq!(book.len(), 0);
    assert!(book.is_empty());
    assert_eq!(book.best(), None);
    assert_eq!(book.orders(), vec![]);
    assert_eq!(book.get(&ask(100, 1)), None);
    assert!(!book.contains(&ask(100, 1)));
}

#[test]
fn asks_at_one_price_trade_in_order_of_arrival() {
    let mut book = Book::with_capacity::<8>(Side::Ask);
    assert_eq!(book.insert(ask(100, 2), resting(1, 10)), Ok(()));
    assert_eq!(book.insert(ask(100, 1), resting(2, 20)), Ok(()));
    let orders = book.orders();
    assert_eq!(orders, vec![(ask(100, 1), resting(2, 20)), (ask(100, 2), resting(1, 10))]);
    assert_eq!(orders[0].0.order_sequence_number, 1);
    assert_eq!(book.best(), Some((ask(100, 1), resting(2, 20))));
}

#[test]
fn higher_bid_trades_first() {
    let mut book = Book::with_capacity::<8>(Side::Bid);
    assert_eq!(book.insert(bid(100, 0), resting(1, 10)), Ok(()));
    assert_eq!(book.insert(bid(101, 1), resting(1, 10)), Ok(()));
    let best = book.best();
    assert_eq!(best, Some((bid(101, 1), resting(1, 10))));
    assert_eq!(best.map(|found| found.0.price_in_ticks.as_u64()), Some(101));
    assert_eq!(
        book.orders(),
        vec![(bid(101, 1), resting(1, 10)), (bid(100, 0), resting(1, 10))]
    );
}

#[test]
fn lower_ask_trades_first() {
    let mut book = Book::with_capacity::<8>(Side::Ask);
    for (ticks, arrival) in [(105u64, 0u64), (101, 1), (103, 2), (101, 3), (110, 4)] {
        assert_eq!(book.insert(ask(ticks, arrival), resting(arrival, ticks)), Ok(()));
    }
    let listed: Vec<(u64, u64)> = book
        .orders()
        .iter()
        .map(|found| (found.0.price_in_ticks.as_u64(), found.0.order_sequence_number))
        .collect();
    assert_eq!(listed, vec![(101, 1), (101, 3), (103, 2), (105, 0), (110, 4)]);
    assert_eq!(book.best(), Some((ask(101, 1), resting(1, 101))));
    assert_eq!(book.len(), 5);
}

#[test]
fn full_book_refuses_a_second_order() {
    let mut book = Book::with_capacity::<1>(Side::Ask);
    assert_eq!(book.insert(ask(100, 1), resting(1, 10)), Ok(()));
    assert_eq!(book.insert(ask(99, 2), resting(2, 20)), Err(MarketError::CapacityExceeded));
    assert_eq!(book.len(), 1);
    assert_eq!(book.orders(), vec![(ask(100, 1), resting(1, 10))]);
    assert_eq!(book.get(&ask(99, 2)), None);
}

#[test]
fn book_refuses_an_identity_it_holds() {
    let mut book = Book::with_capacity::<4>(Side::Ask);
    assert_eq!(book.insert(ask(100, 1), resting(1, 10)), Ok(()));
    assert_eq!(book.insert(ask(100, 1), resting(2, 20)), Err(MarketError::DuplicateIdentity));
    assert_eq!(book.get(&ask(100, 1)), Some(resting(1, 10)));
    assert_eq!(book.len(), 1);
}

#[test]
fn book_refuses_a_sequence_number_it_holds() {
    let mut book = Book::with_capacity::<4>(Side::Bid);
    assert_eq!(book.insert(bid(100, 1), resting(1, 10)), Ok(()));
    assert!(book.has_sequence_number(BID_SEQUENCE_BIT | 1));
    assert!(!book.has_sequence_number(BID_SEQUENCE_BIT | 2));
    assert!(!book.has_sequence_number(1));
    assert_eq!(book.insert(bid(101, 1), resting(2, 20)), Err(MarketError::DuplicateIdentity));
    assert_eq!(book.insert(bid(99, 1), resting(2, 20)), Err(MarketError::DuplicateIdentity));
    assert_eq!(book.orders(), vec![(bid(100, 1), resting(1, 10))]);
    assert_eq!(book.insert(bid(101, 2), resting(2, 20)), Ok(()));
    assert!(book.has_sequence_number(BID_SEQUENCE_BIT | 2));
    assert_eq!(book.remove(&bid(100, 1)), Some(resting(1, 10)));
    assert!(!book.has_sequence_number(BID_SEQUENCE_BIT | 1));
    assert_eq!(book.insert(bid(99, 1), resting(2, 20)), Ok(()));
}

#[test]
fn book_refuses_an_identity_of_the_other_side() {
    let mut asks = Book::with_capacity::<4>(Side::Ask);
    assert_eq!(asks.insert(bid(100, 1), resting(1, 10)), Err(MarketError::MalformedOrderIdentity));
    assert!(asks.is_empty());
    let mut bids = Book::with_capacity::<4>(Side::Bid);
    assert_eq!(bids.insert(ask(100, 1), resting(1, 10)), Err(MarketError::MalformedOrderIdentity));
    assert!(bids.is_empty());
}

#[test]
fn malformed_identity_is_reported_before_a_full_book() {
    let mut book = Book::with_capacity::<1>(Side::Ask);
    assert_eq!(book.insert(ask(100, 1), resting(1, 10)), Ok(()));
    assert_eq!(book.insert(bid(100, 2), resting(1, 10)), Err(MarketError::MalformedOrderIdentity));
    assert_eq!(book.insert(ask(100, 1), resting(1, 10)), Err(MarketError::DuplicateIdentity));
}

#[test]
fn removed_order_leaves_the_book() {
    let mut book = Book::with_capacity::<4>(Side::Bid);
    assert_eq!(book.insert(bid(100, 0), resting(1, 10)), Ok(()));
    assert_eq!(book.insert(bid(101, 1), resting(2, 20)), Ok(()));
    assert_eq!(book.remove(&bid(101, 1)), Some(resting(2, 20)));
    assert_eq!(book.remove(&bid(101, 1)), None);
    assert_eq!(book.len(), 1);
    assert_eq!(book.best(), Some((bid(100, 0), resting(1, 10))));
    assert!(!book.contains(&bid(101, 1)));
    assert!(book.contains(&bid(100, 0)));
}

#[test]
fn removal_makes_room_in_a_full_book() {
    let mut book = Book::with_capacity::<2>(Side::Ask);
    assert_eq!(book.insert(ask(100, 0), resting(1, 10)), Ok(()));
    assert_eq!(book.insert(ask(101, 1), resting(1, 10)), Ok(()));
    assert_eq!(book.insert(ask(102, 2), resting(1, 10)), Err(MarketError::CapacityExceeded));
    assert_eq!(book.remove(&ask(100, 0)), Some(resting(1, 10)));
    assert_eq!(book.insert(ask(102, 2), resting(1, 10)), Ok(()));
    assert_eq!(book.len(), 2);
}

#[test]
fn update_replaces_the_record_of_an_order() {
    let mut book = Book::with_capacity::<1>(Side::Ask);
    assert_eq!(book.insert(ask(100, 0), resting(1, 10)), Ok(()));
    assert_eq!(book.update(&ask(100, 0), resting(1, 4)), Ok(()));
    assert_eq!(book.get(&ask(100, 0)), Some(resting(1, 4)));
    assert_eq!(book.len(), 1);
    assert_eq!(book.update(&ask(100, 9), resting(1, 4)), Err(MarketError::OrderNotFound));
    assert_eq!(book.orders(), vec![(ask(100, 0), resting(1, 4))]);
}

#[test]
fn book_keeps_many_orders_in_priority() {
    let mut book = Book::with_capacity::<64>(Side::Bid);
    for arrival in 0..64u64 {
        let ticks = (arrival * 37) % 11;
        assert_eq!(book.insert(bid(ticks, arrival), resting(arrival, arrival + 1)), Ok(()));
    }
    assert_eq!(book.len(), 64);
    assert_eq!(book.insert(bid(5, 64), resting(0, 1)), Err(MarketError::CapacityExceeded));
    let orders = book.orders();
    assert_eq!(orders.len(), 64);
    for pair in orders.windows(2) {
        let (first, second) = (pair[0].0, pair[1].0);
        assert!(
            first.price_in_ticks > second.price_in_ticks
                || (first.price_in_ticks == second.price_in_ticks
                    && first.order_sequence_number < second.order_sequence_number)
        );
    }
    assert_eq!(book.best(), Some(orders[0]));
}

#[test]
fn trader_table_keeps_ledgers_by_key() {
    let mut table = TraderTable::with_capacity::<2>();
    assert_eq!(table.capacity(), 2);
    assert_eq!(table.len(), 0);
    assert_eq!(table.get(7), None);
    assert_eq!(table.register(7), Ok(()));
    assert_eq!(table.get(7), Some(TraderState::default()));
    let ledger = TraderState::default().deposit(5u64.into_quote(), 6u64.into_base()).unwrap();
    assert_eq!(table.set(7, ledger), Ok(()));
    assert_eq!(table.get(7), Some(ledger));
    assert_eq!(table.register(7), Ok(()));
    assert_eq!(table.get(7), Some(ledger));
    assert_eq!(table.set(8, ledger), Err(MarketError::TraderNotFound));
    assert_eq!(table.register(u64::MAX), Ok(()));
    assert_eq!(table.register(9), Err(MarketError::CapacityExceeded));
    assert_eq!(table.register(7), Ok(()));
    assert_eq!(table.len(), 2);
}

trait IntoLots {
    fn into_quote(self) -> orderbook::quantities::QuoteLots;
    fn into_base(self) -> BaseLots;
}

impl IntoLots for u64 {
    fn into_quote(self) -> orderbook::quantities::QuoteLots {
        orderbook::quantities::QuoteLots::new(self)
    }

    fn into_base(self) -> BaseLots {
        BaseLots::new(self)
    }
}

#[test]
fn book_agrees_with_a_sorted_map_under_mixed_operations() {
    let mut book = Book::with_capacity::<32>(Side::Ask);
    let mut model: std::collections::BTreeMap<(u64, u64), FIFORestingOrder> =
        std::collections::BTreeMap::new();
    let mut state: u64 = 0x9e37_79b9_7f4a_7c15;
    let mut next = || {
        state = state.wrapping_mul(6364136223846793005).wrapping_add(1442695040888963407);
        state >> 33
    };
    for step in 0..4_000u64 {
        let ticks = next() % 16;
        let arrival = next() % 64;
        let id = ask(ticks, arrival);
        let order = resting(next() % 5, step + 1);
        match next() % 4 {
            0 | 1 => {
                let expected = if model.keys().any(|key| key.1 == arrival) {
                    Err(MarketError::DuplicateIdentity)
                } else if model.len() >= 32 {
                    Err(MarketError::CapacityExceeded)
                } else {
                    model.insert((ticks, arrival), order);
                    Ok(())
                };
                assert_eq!(book.insert(id, order), expected);
            }
            2 => {
                assert_eq!(book.remove(&id), model.remove(&(ticks, arrival)));
            }
            _ => {
                let expected = if model.contains_key(&(ticks, arrival)) {
                    model.insert((ticks, arrival), order);
                    Ok(())
                } else {
                    Err(MarketError::OrderNotFound)
                };
                assert_eq!(book.update(&id, order), expected);
            }
        }
        assert_eq!(book.len(), model.len());
        assert_eq!(book.get(&id), model.get(&(ticks, arrival)).copied());
        let first = model.iter().next().map(|(key, order)| (ask(key.0, key.1), *order));
        assert_eq!(book.best(), first);
        if step % 97 == 0 {
            let listed: Vec<(FIFOOrderId, FIFORestingOrder)> =
                model.iter().map(|(key, order)| (ask(key.0, key.1), *order)).collect();
            assert_eq!(book.orders(), listed);
        }
    }
}
