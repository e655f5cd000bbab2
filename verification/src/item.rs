//! What every catalog item can do, and why an item may be refused.

use vstd::prelude::*;

verus! {

/// A catalog item: anything that can name its price and describe itself.
///
/// Both queries only read the item. Each comes with a spec function that
/// says what the query returns, so the answer is fixed by the item alone.
pub trait Sellable {
    /// The price of the item, in whole currency units.
    spec fn price_spec(&self) -> nat;

    /// The text that describes the item.
    spec fn description_spec(&self) -> Seq<char>;

    /// Returns the price of the item.
    fn price(&self) -> (price: u16)
        ensures
            price as nat == self.price_spec(),
    ;

    /// Returns the description of the item.
    fn description(&self) -> (text: String)
        ensures
            text@ == self.description_spec(),
    ;
}

/// Two values are the same logical item when they answer both queries of
/// `Sellable` alike, whatever their types and however they are held.
pub open spec fn same_item<A: Sellable + ?Sized, B: Sellable + ?Sized>(a: &A, b: &B) -> bool {
    &&& a.price_spec() == b.price_spec()
    &&& a.description_spec() == b.description_spec()
}

/// Why field values were refused when an item was made.
#[derive(Debug, Clone, Copy, PartialEq, Eq, Structural)]
pub enum ItemError {
    /// The swing time of a sword is zero, so its price would divide by zero.
    InvalidDivisor,
    /// The price of the item does not fit in 16 bits.
    PriceOverflow,
}

/// Asking an item for its price twice gives the same price.
pub proof fn lemma_price_is_repeatable<T: Sellable + ?Sized>(item: &T, first: u16, second: u16)
    requires
        call_ensures(T::price, (item,), first),
        call_ensures(T::price, (item,), second),
    ensures
        first == second,
{
}

/// Asking an item for its description twice gives the same text.
pub proof fn lemma_description_is_repeatable<T: Sellable + ?Sized>(
    item: &T,
    first: String,
    second: String,
)
    requires
        call_ensures(T::description, (item,), first),
        call_ensures(T::description, (item,), second),
    ensures
        first@ == second@,
{
}

} // verus!
