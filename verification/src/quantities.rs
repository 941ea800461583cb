//! Unit-typed quantities.
//!
//! Every quantity is a 64-bit magnitude tagged with its unit. Values of
//! different units cannot be mixed: sums and differences stay within one unit,
//! and only the products listed at the end of this file exist between units.
//!
//! Arithmetic never wraps. The operators `+`, `-` and `*` demand, as a
//! precondition, that the mathematical result fits 64 bits; the `checked_*`
//! methods accept every input and return `None` where it does not fit.

use vstd::prelude::*;
use std::ops::Add;
use std::ops::Sub;
use std::ops::Mul;
use vstd::std_specs::ops::AddSpecImpl;
use vstd::std_specs::ops::SubSpecImpl;
use vstd::std_specs::ops::MulSpecImpl;
use vstd::std_specs::ops::MulSpec;

verus! {

/// A quantity that is a 64-bit magnitude and nothing else. Its view is the
/// magnitude.
pub trait WrapperU64: Sized + View<V = u64> {
    /// The quantity of the given magnitude.
    fn new(value: u64) -> (quantity: Self)
        ensures
            quantity@ == value,
    ;

    /// The magnitude of the quantity.
    fn as_u64(&self) -> (value: u64)
        ensures
            value == self@,
    ;
}

/// Quote lots: the smallest unit of quote currency on the book.
#[derive(Debug, Clone, Copy, PartialEq, Eq, Structural, PartialOrd, Ord)]
pub struct QuoteLots {
    pub inner: u64,
}

impl View for QuoteLots {
    type V = u64;

    open spec fn view(&self) -> u64 {
        self.inner
    }
}

impl WrapperU64 for QuoteLots {
    fn new(value: u64) -> (quantity: Self) {
        QuoteLots { inner: value }
    }

    fn as_u64(&self) -> (value: u64) {
        self.inner
    }
}

impl QuoteLots {
    /// The quantity of magnitude zero, neutral under `+`.
    pub fn zero() -> (quantity: Self)
        ensures
            quantity@ == 0,
    {
        QuoteLots { inner: 0 }
    }

    /// The quantity of magnitude one.
    pub fn one() -> (quantity: Self)
        ensures
            quantity@ == 1,
    {
        QuoteLots { inner: 1 }
    }

    /// The sum of two quantities, or `None` where it does not fit 64 bits.
    pub fn checked_add(self, other: Self) -> (sum: Option<Self>)
        ensures
            self@ + other@ <= u64::MAX ==> sum == Some(QuoteLots { inner: (self@ + other@) as u64 }),
            self@ + other@ > u64::MAX ==> sum.is_none(),
    {
        match self.inner.checked_add(other.inner) {
            Some(value) => Some(QuoteLots { inner: value }),
            None => None,
        }
    }

    /// The difference of two quantities, or `None` where it would fall below
    /// zero.
    pub fn checked_sub(self, other: Self) -> (difference: Option<Self>)
        ensures
            self@ >= other@ ==> difference == Some(QuoteLots { inner: (self@ - other@) as u64 }),
            self@ < other@ ==> difference.is_none(),
    {
        match self.inner.checked_sub(other.inner) {
            Some(value) => Some(QuoteLots { inner: value }),
            None => None,
        }
    }
}

impl AddSpecImpl for QuoteLots {
    open spec fn obeys_add_spec() -> bool {
        true
    }

    open spec fn add_req(self, other: Self) -> bool {
        self@ + other@ <= u64::MAX
    }

    open spec fn add_spec(self, other: Self) -> Self {
        QuoteLots { inner: (self@ + other@) as u64 }
    }
}

impl Add for QuoteLots {
    type Output = Self;

    fn add(self, other: Self) -> (sum: Self) {
        QuoteLots { inner: self.inner + other.inner }
    }
}

impl SubSpecImpl for QuoteLots {
    open spec fn obeys_sub_spec() -> bool {
        true
    }

    open spec fn sub_req(self, other: Self) -> bool {
        self@ >= other@
    }

    open spec fn sub_spec(self, other: Self) -> Self {
        QuoteLots { inner: (self@ - other@) as u64 }
    }
}

impl Sub for QuoteLots {
    type Output = Self;

    fn sub(self, other: Self) -> (difference: Self) {
        QuoteLots { inner: self.inner - other.inner }
    }
}

/// Base lots: the smallest unit of base currency on the book.
#[derive(Debug, Clone, Copy, PartialEq, Eq, Structural, PartialOrd, Ord)]
pub struct BaseLots {
    pub inner: u64,
}

impl View for BaseLots {
    type V = u64;

    open spec fn view(&self) -> u64 {
        self.inner
    }
}

impl WrapperU64 for BaseLots {
    fn new(value: u64) -> (quantity: Self) {
        BaseLots { inner: value }
    }

    fn as_u64(&self) -> (value: u64) {
        self.inner
    }
}

impl BaseLots {
    /// The quantity of magnitude zero, neutral under `+`.
    pub fn zero() -> (quantity: Self)
        ensures
            quantity@ == 0,
    {
        BaseLots { inner: 0 }
    }

    /// The quantity of magnitude one.
    pub fn one() -> (quantity: Self)
        ensures
            quantity@ == 1,
    {
        BaseLots { inner: 1 }
    }

    /// The sum of two quantities, or `None` where it does not fit 64 bits.
    pub fn checked_add(self, other: Self) -> (sum: Option<Self>)
        ensures
            self@ + other@ <= u64::MAX ==> sum == Some(BaseLots { inner: (self@ + other@) as u64 }),
            self@ + other@ > u64::MAX ==> sum.is_none(),
    {
        match self.inner.checked_add(other.inner) {
            Some(value) => Some(BaseLots { inner: value }),
            None => None,
        }
    }

    /// The difference of two quantities, or `None` where it would fall below
    /// zero.
    pub fn checked_sub(self, other: Self) -> (difference: Option<Self>)
        ensures
            self@ >= other@ ==> difference == Some(BaseLots { inner: (self@ - other@) as u64 }),
            self@ < other@ ==> difference.is_none(),
    {
        match self.inner.checked_sub(other.inner) {
            Some(value) => Some(BaseLots { inner: value }),
            None => None,
        }
    }
}

impl AddSpecImpl for BaseLots {
    open spec fn obeys_add_spec() -> bool {
        true
    }

    open spec fn add_req(self, other: Self) -> bool {
        self@ + other@ <= u64::MAX
    }

    open spec fn add_spec(self, other: Self) -> Self {
        BaseLots { inner: (self@ + other@) as u64 }
    }
}

impl Add for BaseLots {
    type Output = Self;

    fn add(self, other: Self) -> (sum: Self) {
        BaseLots { inner: self.inner + other.inner }
    }
}

impl SubSpecImpl for BaseLots {
    open spec fn obeys_sub_spec() -> bool {
        true
    }

    open spec fn sub_req(self, other: Self) -> bool {
        self@ >= other@
    }

    open spec fn sub_spec(self, other: Self) -> Self {
        BaseLots { inner: (self@ - other@) as u64 }
    }
}

impl Sub for BaseLots {
    type Output = Self;

    fn sub(self, other: Self) -> (difference: Self) {
        BaseLots { inner: self.inner - other.inner }
    }
}

/// Ticks: the discrete unit of price.
#[derive(Debug, Clone, Copy, PartialEq, Eq, Structural, PartialOrd, Ord)]
pub struct Ticks {
    pub inner: u64,
}

impl View for Ticks {
    type V = u64;

    open spec fn view(&self) -> u64 {
        self.inner
    }
}

impl WrapperU64 for Ticks {
    fn new(value: u64) -> (quantity: Self) {
        Ticks { inner: value }
    }

    fn as_u64(&self) -> (value: u64) {
        self.inner
    }
}

impl Ticks {
    /// The quantity of magnitude zero, neutral under `+`.
    pub fn zero() -> (quantity: Self)
        ensures
            quantity@ == 0,
    {
        Ticks { inner: 0 }
    }

    /// The quantity of magnitude one.
    pub fn one() -> (quantity: Self)
        ensures
            quantity@ == 1,
    {
        Ticks { inner: 1 }
    }

    /// The sum of two quantities, or `None` where it does not fit 64 bits.
    pub fn checked_add(self, other: Self) -> (sum: Option<Self>)
        ensures
            self@ + other@ <= u64::MAX ==> sum == Some(Ticks { inner: (self@ + other@) as u64 }),
            self@ + other@ > u64::MAX ==> sum.is_none(),
    {
        match self.inner.checked_add(other.inner) {
            Some(value) => Some(Ticks { inner: value }),
            None => None,
        }
    }

    /// The difference of two quantities, or `None` where it would fall below
    /// zero.
    pub fn checked_sub(self, other: Self) -> (difference: Option<Self>)
        ensures
            self@ >= other@ ==> difference == Some(Ticks { inner: (self@ - other@) as u64 }),
            self@ < other@ ==> difference.is_none(),
    {
        match self.inner.checked_sub(other.inner) {
            Some(value) => Some(Ticks { inner: value }),
            None => None,
        }
    }
}

impl AddSpecImpl for Ticks {
    open spec fn obeys_add_spec() -> bool {
        true
    }

    open spec fn add_req(self, other: Self) -> bool {
        self@ + other@ <= u64::MAX
    }

    open spec fn add_spec(self, other: Self) -> Self {
        Ticks { inner: (self@ + other@) as u64 }
    }
}

impl Add for Ticks {
    type Output = Self;

    fn add(self, other: Self) -> (sum: Self) {
        Ticks { inner: self.inner + other.inner }
    }
}

impl SubSpecImpl for Ticks {
    open spec fn obeys_sub_spec() -> bool {
        true
    }

    open spec fn sub_req(self, other: Self) -> bool {
        self@ >= other@
    }

    open spec fn sub_spec(self, other: Self) -> Self {
        Ticks { inner: (self@ - other@) as u64 }
    }
}

impl Sub for Ticks {
    type Output = Self;

    fn sub(self, other: Self) -> (difference: Self) {
        Ticks { inner: self.inner - other.inner }
    }
}

/// Conversion factor: atoms of base currency in one base lot.
#[derive(Debug, Clone, Copy, PartialEq, Eq, Structural, PartialOrd, Ord)]
pub struct BaseAtomsPerBaseLot {
    pub inner: u64,
}

impl View for BaseAtomsPerBaseLot {
    type V = u64;

    open spec fn view(&self) -> u64 {
        self.inner
    }
}

impl WrapperU64 for BaseAtomsPerBaseLot {
    fn new(value: u64) -> (quantity: Self) {
        BaseAtomsPerBaseLot { inner: value }
    }

    fn as_u64(&self) -> (value: u64) {
        self.inner
    }
}

impl BaseAtomsPerBaseLot {
    /// The quantity of magnitude zero, neutral under `+`.
    pub fn zero() -> (quantity: Self)
        ensures
            quantity@ == 0,
    {
        BaseAtomsPerBaseLot { inner: 0 }
    }

    /// The quantity of magnitude one.
    pub fn one() -> (quantity: Self)
        ensures
            quantity@ == 1,
    {
        BaseAtomsPerBaseLot { inner: 1 }
    }

    /// The sum of two quantities, or `None` where it does not fit 64 bits.
    pub fn checked_add(self, other: Self) -> (sum: Option<Self>)
        ensures
            self@ + other@ <= u64::MAX ==> sum == Some(BaseAtomsPerBaseLot { inner: (self@ + other@) as u64 }),
            self@ + other@ > u64::MAX ==> sum.is_none(),
    {
        match self.inner.checked_add(other.inner) {
            Some(value) => Some(BaseAtomsPerBaseLot { inner: value }),
            None => None,
        }
    }

    /// The difference of two quantities, or `None` where it would fall below
    /// zero.
    pub fn checked_sub(self, other: Self) -> (difference: Option<Self>)
        ensures
            self@ >= other@ ==> difference == Some(BaseAtomsPerBaseLot { inner: (self@ - other@) as u64 }),
            self@ < other@ ==> difference.is_none(),
    {
        match self.inner.checked_sub(other.inner) {
            Some(value) => Some(BaseAtomsPerBaseLot { inner: value }),
            None => None,
        }
    }
}

impl AddSpecImpl for BaseAtomsPerBaseLot {
    open spec fn obeys_add_spec() -> bool {
        true
    }

    open spec fn add_req(self, other: Self) -> bool {
        self@ + other@ <= u64::MAX
    }

    open spec fn add_spec(self, other: Self) -> Self {
        BaseAtomsPerBaseLot { inner: (self@ + other@) as u64 }
    }
}

impl Add for BaseAtomsPerBaseLot {
    type Output = Self;

    fn add(self, other: Self) -> (sum: Self) {
        BaseAtomsPerBaseLot { inner: self.inner + other.inner }
    }
}

impl SubSpecImpl for BaseAtomsPerBaseLot {
    open spec fn obeys_sub_spec() -> bool {
        true
    }

    open spec fn sub_req(self, other: Self) -> bool {
        self@ >= other@
    }

    open spec fn sub_spec(self, other: Self) -> Self {
        BaseAtomsPerBaseLot { inner: (self@ - other@) as u64 }
    }
}

impl Sub for BaseAtomsPerBaseLot {
    type Output = Self;

    fn sub(self, other: Self) -> (difference: Self) {
        BaseAtomsPerBaseLot { inner: self.inner - other.inner }
    }
}

/// Conversion factor: atoms of quote currency in one quote lot.
#[derive(Debug, Clone, Copy, PartialEq, Eq, Structural, PartialOrd, Ord)]
pub struct QuoteAtomsPerQuoteLot {
    pub inner: u64,
}

impl View for QuoteAtomsPerQuoteLot {
    type V = u64;

    open spec fn view(&self) -> u64 {
        self.inner
    }
}

impl WrapperU64 for QuoteAtomsPerQuoteLot {
    fn new(value: u64) -> (quantity: Self) {
        QuoteAtomsPerQuoteLot { inner: value }
    }

    fn as_u64(&self) -> (value: u64) {
        self.inner
    }
}

impl QuoteAtomsPerQuoteLot {
    /// The quantity of magnitude zero, neutral under `+`.
    pub fn zero() -> (quantity: Self)
        ensures
            quantity@ == 0,
    {
        QuoteAtomsPerQuoteLot { inner: 0 }
    }

    /// The quantity of magnitude one.
    pub fn one() -> (quantity: Self)
        ensures
            quantity@ == 1,
    {
        QuoteAtomsPerQuoteLot { inner: 1 }
    }

    /// The sum of two quantities, or `None` where it does not fit 64 bits.
    pub fn checked_add(self, other: Self) -> (sum: Option<Self>)
        ensures
            self@ + other@ <= u64::MAX ==> sum == Some(QuoteAtomsPerQuoteLot { inner: (self@ + other@) as u64 }),
            self@ + other@ > u64::MAX ==> sum.is_none(),
    {
        match self.inner.checked_add(other.inner) {
            Some(value) => Some(QuoteAtomsPerQuoteLot { inner: value }),
            None => None,
        }
    }

    /// The difference of two quantities, or `None` where it would fall below
    /// zero.
    pub fn checked_sub(self, other: Self) -> (difference: Option<Self>)
        ensures
            self@ >= other@ ==> difference == Some(QuoteAtomsPerQuoteLot { inner: (self@ - other@) as u64 }),
            self@ < other@ ==> difference.is_none(),
    {
        match self.inner.checked_sub(other.inner) {
            Some(value) => Some(QuoteAtomsPerQuoteLot { inner: value }),
            None => None,
        }
    }
}

impl AddSpecImpl for QuoteAtomsPerQuoteLot {
    open spec fn obeys_add_spec() -> bool {
        true
    }

    open spec fn add_req(self, other: Self) -> bool {
        self@ + other@ <= u64::MAX
    }

    open spec fn add_spec(self, other: Self) -> Self {
        QuoteAtomsPerQuoteLot { inner: (self@ + other@) as u64 }
    }
}

impl Add for QuoteAtomsPerQuoteLot {
    type Output = Self;

    fn add(self, other: Self) -> (sum: Self) {
        QuoteAtomsPerQuoteLot { inner: self.inner + other.inner }
    }
}

impl SubSpecImpl for QuoteAtomsPerQuoteLot {
    open spec fn obeys_sub_spec() -> bool {
        true
    }

    open spec fn sub_req(self, other: Self) -> bool {
        self@ >= other@
    }

    open spec fn sub_spec(self, other: Self) -> Self {
        QuoteAtomsPerQuoteLot { inner: (self@ - other@) as u64 }
    }
}

impl Sub for QuoteAtomsPerQuoteLot {
    type Output = Self;

    fn sub(self, other: Self) -> (difference: Self) {
        QuoteAtomsPerQuoteLot { inner: self.inner - other.inner }
    }
}

/// Conversion factor: base lots in one whole unit of base currency.
#[derive(Debug, Clone, Copy, PartialEq, Eq, Structural, PartialOrd, Ord)]
pub struct BaseLotsPerBaseUnit {
    pub inner: u64,
}

impl View for BaseLotsPerBaseUnit {
    type V = u64;

    open spec fn view(&self) -> u64 {
        self.inner
    }
}

impl WrapperU64 for BaseLotsPerBaseUnit {
    fn new(value: u64) -> (quantity: Self) {
        BaseLotsPerBaseUnit { inner: value }
    }

    fn as_u64(&self) -> (value: u64) {
        self.inner
    }
}

impl BaseLotsPerBaseUnit {
    /// The quantity of magnitude zero, neutral under `+`.
    pub fn zero() -> (quantity: Self)
        ensures
            quantity@ == 0,
    {
        BaseLotsPerBaseUnit { inner: 0 }
    }

    /// The quantity of magnitude one.
    pub fn one() -> (quantity: Self)
        ensures
            quantity@ == 1,
    {
        BaseLotsPerBaseUnit { inner: 1 }
    }

    /// The sum of two quantities, or `None` where it does not fit 64 bits.
    pub fn checked_add(self, other: Self) -> (sum: Option<Self>)
        ensures
            self@ + other@ <= u64::MAX ==> sum == Some(BaseLotsPerBaseUnit { inner: (self@ + other@) as u64 }),
            self@ + other@ > u64::MAX ==> sum.is_none(),
    {
        match self.inner.checked_add(other.inner) {
            Some(value) => Some(BaseLotsPerBaseUnit { inner: value }),
            None => None,
        }
    }

    /// The difference of two quantities, or `None` where it would fall below
    /// zero.
    pub fn checked_sub(self, other: Self) -> (difference: Option<Self>)
        ensures
            self@ >= other@ ==> difference == Some(BaseLotsPerBaseUnit { inner: (self@ - other@) as u64 }),
            self@ < other@ ==> difference.is_none(),
    {
        match self.inner.checked_sub(other.inner) {
            Some(value) => Some(BaseLotsPerBaseUnit { inner: value }),
            None => None,
        }
    }
}

impl AddSpecImpl for BaseLotsPerBaseUnit {
    open spec fn obeys_add_spec() -> bool {
        true
    }

    open spec fn add_req(self, other: Self) -> bool {
        self@ + other@ <= u64::MAX
    }

    open spec fn add_spec(self, other: Self) -> Self {
        BaseLotsPerBaseUnit { inner: (self@ + other@) as u64 }
    }
}

impl Add for BaseLotsPerBaseUnit {
    type Output = Self;

    fn add(self, other: Self) -> (sum: Self) {
        BaseLotsPerBaseUnit { inner: self.inner + other.inner }
    }
}

impl SubSpecImpl for BaseLotsPerBaseUnit {
    open spec fn obeys_sub_spec() -> bool {
        true
    }

    open spec fn sub_req(self, other: Self) -> bool {
        self@ >= other@
    }

    open spec fn sub_spec(self, other: Self) -> Self {
        BaseLotsPerBaseUnit { inner: (self@ - other@) as u64 }
    }
}

impl Sub for BaseLotsPerBaseUnit {
    type Output = Self;

    fn sub(self, other: Self) -> (difference: Self) {
        BaseLotsPerBaseUnit { inner: self.inner - other.inner }
    }
}

/// Conversion factor: quote lots that one tick of price is worth, per whole
/// unit of base currency. This is the tick size of a market.
#[derive(Debug, Clone, Copy, PartialEq, Eq, Structural, PartialOrd, Ord)]
pub struct QuoteLotsPerBaseUnitPerTick {
    pub inner: u64,
}

impl View for QuoteLotsPerBaseUnitPerTick {
    type V = u64;

    open spec fn view(&self) -> u64 {
        self.inner
    }
}

impl WrapperU64 for QuoteLotsPerBaseUnitPerTick {
    fn new(value: u64) -> (quantity: Self) {
        QuoteLotsPerBaseUnitPerTick { inner: value }
    }

    fn as_u64(&self) -> (value: u64) {
        self.inner
    }
}

impl QuoteLotsPerBaseUnitPerTick {
    /// The quantity of magnitude zero, neutral under `+`.
    pub fn zero() -> (quantity: Self)
        ensures
            quantity@ == 0,
    {
        QuoteLotsPerBaseUnitPerTick { inner: 0 }
    }

    /// The quantity of magnitude one.
    pub fn one() -> (quantity: Self)
        ensures
            quantity@ == 1,
    {
        QuoteLotsPerBaseUnitPerTick { inner: 1 }
    }

    /// The sum of two quantities, or `None` where it does not fit 64 bits.
    pub fn checked_add(self, other: Self) -> (sum: Option<Self>)
        ensures
            self@ + other@ <= u64::MAX ==> sum == Some(QuoteLotsPerBaseUnitPerTick { inner: (self@ + other@) as u64 }),
            self@ + other@ > u64::MAX ==> sum.is_none(),
    {
        match self.inner.checked_add(other.inner) {
            Some(value) => Some(QuoteLotsPerBaseUnitPerTick { inner: value }),
            None => None,
        }
    }

    /// The difference of two quantities, or `None` where it would fall below
    /// zero.
    pub fn checked_sub(self, other: Self) -> (difference: Option<Self>)
        ensures
            self@ >= other@ ==> difference == Some(QuoteLotsPerBaseUnitPerTick { inner: (self@ - other@) as u64 }),
            self@ < other@ ==> difference.is_none(),
    {
        match self.inner.checked_sub(other.inner) {
            Some(value) => Some(QuoteLotsPerBaseUnitPerTick { inner: value }),
            None => None,
        }
    }
}

impl AddSpecImpl for QuoteLotsPerBaseUnitPerTick {
    open spec fn obeys_add_spec() -> bool {
        true
    }

    open spec fn add_req(self, other: Self) -> bool {
        self@ + other@ <= u64::MAX
    }

    open spec fn add_spec(self, other: Self) -> Self {
        QuoteLotsPerBaseUnitPerTick { inner: (self@ + other@) as u64 }
    }
}

impl Add for QuoteLotsPerBaseUnitPerTick {
    type Output = Self;

    fn add(self, other: Self) -> (sum: Self) {
        QuoteLotsPerBaseUnitPerTick { inner: self.inner + other.inner }
    }
}

impl SubSpecImpl for QuoteLotsPerBaseUnitPerTick {
    open spec fn obeys_sub_spec() -> bool {
        true
    }

    open spec fn sub_req(self, other: Self) -> bool {
        self@ >= other@
    }

    open spec fn sub_spec(self, other: Self) -> Self {
        QuoteLotsPerBaseUnitPerTick { inner: (self@ - other@) as u64 }
    }
}

impl Sub for QuoteLotsPerBaseUnitPerTick {
    type Output = Self;

    fn sub(self, other: Self) -> (difference: Self) {
        QuoteLotsPerBaseUnitPerTick { inner: self.inner - other.inner }
    }
}

/// Fee-adjusted quote lots. Kept apart from `QuoteLots` so that an adjusted
/// amount cannot slip into balance arithmetic.
#[derive(Debug, Clone, Copy, PartialEq, Eq, Structural, PartialOrd, Ord)]
pub struct AdjustedQuoteLots {
    pub inner: u64,
}

impl View for AdjustedQuoteLots {
    type V = u64;

    open spec fn view(&self) -> u64 {
        self.inner
    }
}

impl WrapperU64 for AdjustedQuoteLots {
    fn new(value: u64) -> (quantity: Self) {
        AdjustedQuoteLots { inner: value }
    }

    fn as_u64(&self) -> (value: u64) {
        self.inner
    }
}

impl AdjustedQuoteLots {
    /// The quantity of magnitude zero, neutral under `+`.
    pub fn zero() -> (quantity: Self)
        ensures
            quantity@ == 0,
    {
        AdjustedQuoteLots { inner: 0 }
    }

    /// The quantity of magnitude one.
    pub fn one() -> (quantity: Self)
        ensures
            quantity@ == 1,
    {
        AdjustedQuoteLots { inner: 1 }
    }

    /// The sum of two quantities, or `None` where it does not fit 64 bits.
    pub fn checked_add(self, other: Self) -> (sum: Option<Self>)
        ensures
            self@ + other@ <= u64::MAX ==> sum == Some(AdjustedQuoteLots { inner: (self@ + other@) as u64 }),
            self@ + other@ > u64::MAX ==> sum.is_none(),
    {
        match self.inner.checked_add(other.inner) {
            Some(value) => Some(AdjustedQuoteLots { inner: value }),
            None => None,
        }
    }

    /// The difference of two quantities, or `None` where it would fall below
    /// zero.
    pub fn checked_sub(self, other: Self) -> (difference: Option<Self>)
        ensures
            self@ >= other@ ==> difference == Some(AdjustedQuoteLots { inner: (self@ - other@) as u64 }),
            self@ < other@ ==> difference.is_none(),
    {
        match self.inner.checked_sub(other.inner) {
            Some(value) => Some(AdjustedQuoteLots { inner: value }),
            None => None,
        }
    }
}

impl AddSpecImpl for AdjustedQuoteLots {
    open spec fn obeys_add_spec() -> bool {
        true
    }

    open spec fn add_req(self, other: Self) -> bool {
        self@ + other@ <= u64::MAX
    }

    open spec fn add_spec(self, other: Self) -> Self {
        AdjustedQuoteLots { inner: (self@ + other@) as u64 }
    }
}

impl Add for AdjustedQuoteLots {
    type Output = Self;

    fn add(self, other: Self) -> (sum: Self) {
        AdjustedQuoteLots { inner: self.inner + other.inner }
    }
}

impl SubSpecImpl for AdjustedQuoteLots {
    open spec fn obeys_sub_spec() -> bool {
        true
    }

    open spec fn sub_req(self, other: Self) -> bool {
        self@ >= other@
    }

    open spec fn sub_spec(self, other: Self) -> Self {
        AdjustedQuoteLots { inner: (self@ - other@) as u64 }
    }
}

impl Sub for AdjustedQuoteLots {
    type Output = Self;

    fn sub(self, other: Self) -> (difference: Self) {
        AdjustedQuoteLots { inner: self.inner - other.inner }
    }
}

/// The one product between units: base lots times base atoms per base lot,
/// in either order, gives quote lots.
impl MulSpecImpl<BaseAtomsPerBaseLot> for BaseLots {
    open spec fn obeys_mul_spec() -> bool {
        true
    }

    open spec fn mul_req(self, other: BaseAtomsPerBaseLot) -> bool {
        self@ * other@ <= u64::MAX
    }

    open spec fn mul_spec(self, other: BaseAtomsPerBaseLot) -> QuoteLots {
        QuoteLots { inner: (self@ * other@) as u64 }
    }
}

impl Mul<BaseAtomsPerBaseLot> for BaseLots {
    type Output = QuoteLots;

    fn mul(self, other: BaseAtomsPerBaseLot) -> (product: QuoteLots) {
        QuoteLots { inner: self.inner * other.inner }
    }
}

impl MulSpecImpl<BaseLots> for BaseAtomsPerBaseLot {
    open spec fn obeys_mul_spec() -> bool {
        true
    }

    open spec fn mul_req(self, other: BaseLots) -> bool {
        self@ * other@ <= u64::MAX
    }

    open spec fn mul_spec(self, other: BaseLots) -> QuoteLots {
        QuoteLots { inner: (self@ * other@) as u64 }
    }
}

impl Mul<BaseLots> for BaseAtomsPerBaseLot {
    type Output = QuoteLots;

    fn mul(self, other: BaseLots) -> (product: QuoteLots) {
        QuoteLots { inner: self.inner * other.inner }
    }
}

impl BaseLots {
    /// The product with a conversion factor, or `None` where it does not fit
    /// 64 bits.
    pub fn checked_mul(self, other: BaseAtomsPerBaseLot) -> (product: Option<QuoteLots>)
        ensures
            self@ * other@ <= u64::MAX ==> product == Some(QuoteLots { inner: (self@ * other@) as u64 }),
            self@ * other@ > u64::MAX ==> product.is_none(),
    {
        match self.inner.checked_mul(other.inner) {
            Some(value) => Some(QuoteLots { inner: value }),
            None => None,
        }
    }
}

impl BaseAtomsPerBaseLot {
    /// The product with a number of base lots, or `None` where it does not
    /// fit 64 bits.
    pub fn checked_mul(self, other: BaseLots) -> (product: Option<QuoteLots>)
        ensures
            self@ * other@ <= u64::MAX ==> product == Some(QuoteLots { inner: (self@ * other@) as u64 }),
            self@ * other@ > u64::MAX ==> product.is_none(),
    {
        match self.inner.checked_mul(other.inner) {
            Some(value) => Some(QuoteLots { inner: value }),
            None => None,
        }
    }
}

/// The product between units does not depend on the order of its factors:
/// both orders are allowed on the same inputs and give the same quote lots.
pub proof fn lemma_product_commutes(lots: BaseLots, factor: BaseAtomsPerBaseLot)
    ensures
        MulSpec::mul_req(lots, factor) == MulSpec::mul_req(factor, lots),
        MulSpec::mul_spec(lots, factor) == MulSpec::mul_spec(factor, lots),
{
}

} // verus!
