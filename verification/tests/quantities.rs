use orderbook::quantities::AdjustedQuoteLots;
use orderbook::quantities::BaseAtomsPerBaseLot;
use orderbook::quantities::BaseLots;
use orderbook::quantities::BaseLotsPerBaseUnit;
use orderbook::quantities::QuoteAtomsPerQuoteLot;
use orderbook::quantities::QuoteLots;
use orderbook::quantities::QuoteLotsPerBaseUnitPerTick;
use orderbook::quantities::Ticks;
use orderbook::quantities::WrapperU64;

#[test]
fn magnitude_is_read_back() {
    assert_eq!(QuoteLots::new(17).as_u64(), 17);
    assert_eq!(BaseLots::new(0).as_u64(), 0);
    assert_eq!(Ticks::new(u64::MAX).as_u64(), u64::MAX);
    assert_eq!(BaseAtomsPerBaseLot::new(1_000).as_u64(), 1_000);
    assert_eq!(QuoteAtomsPerQuoteLot::new(5).as_u64(), 5);
    assert_eq!(BaseLotsPerBaseUnit::new(9).as_u64(), 9);
    assert_eq!(QuoteLotsPerBaseUnitPerTick::new(3).as_u64(), 3);
    assert_eq!(AdjustedQuoteLots::new(11).as_u64(), 11);
}

#[test]
fn zero_and_one_are_the_identities() {
    assert_eq!(QuoteLots::zero().as_u64(), 0);
    assert_eq!(QuoteLots::one().as_u64(), 1);
    assert_eq!(BaseLots::zero(), BaseLots::new(0));
    assert_eq!(Ticks::one(), Ticks::new(1));
    assert_eq!(BaseLots::new(42) + BaseLots::zero(), BaseLots::new(42));
}

#[test]
fn sums_and_differences_stay_in_their_unit() {
    assert_eq!(QuoteLots::new(40) + QuoteLots::new(2), QuoteLots::new(42));
    assert_eq!(QuoteLots::new(40) - QuoteLots::new(2), QuoteLots::new(38));
    assert_eq!(Ticks::new(7) + Ticks::new(8), Ticks::new(15));
    assert_eq!(BaseLots::new(9) - BaseLots::new(9), BaseLots::new(0));
}

#[test]
fn checked_sum_reports_overflow() {
    assert_eq!(BaseLots::new(1).checked_add(BaseLots::new(2)), Some(BaseLots::new(3)));
    assert_eq!(
        BaseLots::new(u64::MAX - 1).checked_add(BaseLots::new(1)),
        Some(BaseLots::new(u64::MAX))
    );
    assert_eq!(BaseLots::new(u64::MAX).checked_add(BaseLots::new(1)), None);
}

#[test]
fn checked_difference_reports_underflow() {
    assert_eq!(QuoteLots::new(5).checked_sub(QuoteLots::new(5)), Some(QuoteLots::new(0)));
    assert_eq!(QuoteLots::new(5).checked_sub(QuoteLots::new(3)), Some(QuoteLots::new(2)));
    assert_eq!(QuoteLots::new(5).checked_sub(QuoteLots::new(6)), None);
}

#[test]
fn product_of_lots_and_factor_commutes() {
    let lots = BaseLots::new(12);
    let factor = BaseAtomsPerBaseLot::new(100);
    assert_eq!(lots * factor, QuoteLots::new(1_200));
    assert_eq!(factor * lots, QuoteLots::new(1_200));
    assert_eq!(lots.checked_mul(factor), Some(QuoteLots::new(1_200)));
    assert_eq!(factor.checked_mul(lots), Some(QuoteLots::new(1_200)));
}

#[test]
fn checked_product_reports_overflow() {
    let lots = BaseLots::new(1 << 32);
    assert_eq!(lots.checked_mul(BaseAtomsPerBaseLot::new(1 << 32)), None);
    assert_eq!(
        lots.checked_mul(BaseAtomsPerBaseLot::new((1 << 32) - 1)),
        Some(QuoteLots::new(((1u64 << 32) - 1) << 32))
    );
    assert_eq!(BaseAtomsPerBaseLot::new(u64::MAX).checked_mul(BaseLots::new(2)), None);
}

#[test]
fn quantities_compare_by_magnitude() {
    assert!(Ticks::new(3) < Ticks::new(4));
    assert!(QuoteLots::new(9) > QuoteLots::new(1));
    assert_eq!(BaseLots::new(5), BaseLots::new(5));
    assert_ne!(BaseLots::new(5), BaseLots::new(6));
}
