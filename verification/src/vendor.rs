//! The vendor's offers: one line of text for each item.
//!
//! An item can be offered where its type is known, where only a handle to
//! some item is at hand, or as one of a collection of such handles, which
//! may borrow their items or own them. The text is the same in every case.

use vstd::prelude::*;
use vstd::string::StringExecFns;
use crate::decimal::{append_decimal, decimal_digits};
use crate::item::{same_item, Sellable};

verus! {

/// The offer for an item with the given description and price.
pub open spec fn vendor_text(description: Seq<char>, price: nat) -> Seq<char> {
    "I offer you "@ + description + ", ["@ + decimal_digits(price) + "g]"@
}

/// The offer for `item`.
pub open spec fn vendor_text_of<T: Sellable + ?Sized>(item: &T) -> Seq<char> {
    vendor_text(item.description_spec(), item.price_spec())
}

/// The offers for a collection of borrowed handles, one line for each
/// handle, in the order of the handles.
pub open spec fn borrowed_lines(items: Seq<&dyn Sellable>) -> Seq<Seq<char>> {
    Seq::new(items.len(), |i: int| vendor_text_of(items[i]))
}

/// The offers for a collection of owning handles, one line for each handle,
/// in the order of the handles.
pub open spec fn owned_lines(items: Seq<Box<dyn Sellable>>) -> Seq<Seq<char>> {
    Seq::new(items.len(), |i: int| vendor_text_of(&*items[i]))
}

/// Fills the offer template with a description and a price.
pub fn format_offer(description: &str, price: u16) -> (text: String)
    ensures
        text@ == vendor_text(description@, price as nat),
{
    let mut text = String::from_str("I offer you ");
    text.append(description);
    text.append(", [");
    append_decimal(&mut text, price);
    text.append("g]");
    text
}

/// Offers any item, whether its type is known or hidden behind a handle.
///
/// The two functions below are this one at a sized type and at
/// `dyn Sellable`. A handle that is already at hand can be passed here as
/// it is.
pub fn vendor_text_any<T: Sellable + ?Sized>(item: &T) -> (text: String)
    ensures
        text@ == vendor_text_of(item),
{
    let description = item.description();
    let price: u16 = item.price();
    format_offer(description.as_str(), price)
}

/// Offers an item whose type is known where the call is written.
pub fn vendor_text_static<T: Sellable>(item: &T) -> (text: String)
    ensures
        text@ == vendor_text_of(item),
{
    vendor_text_any(item)
}

/// Offers an item through a handle that hides its type.
pub fn vendor_text_dynamic(item: &dyn Sellable) -> (text: String)
    ensures
        text@ == vendor_text_of(item),
{
    vendor_text_any(item)
}

/// Offers each item of a collection of borrowed handles: one line for each
/// handle, in the order of the handles.
pub fn vendor_lines_borrowed(items: &[&dyn Sellable]) -> (lines: Vec<String>)
    ensures
        lines@.len() == items@.len(),
        forall|i: int|
            0 <= i < items@.len() ==> (#[trigger] lines@[i])@ == vendor_text_of(items@[i]),
        lines.deep_view() == borrowed_lines(items@),
{
    let mut lines: Vec<String> = Vec::new();
    let mut done: usize = 0;
    while done < items.len()
        invariant
            done <= items@.len(),
            lines@.len() == done,
            forall|i: int| 0 <= i < done ==> (#[trigger] lines@[i])@ == vendor_text_of(items@[i]),
        decreases items@.len() - done,
    {
        let line = vendor_text_any(items[done]);
        lines.push(line);
        done += 1;
    }
    assert(lines.deep_view() =~= borrowed_lines(items@));
    lines
}

/// Offers each item of a collection of owning handles: one line for each
/// handle, in the order of the handles.
pub fn vendor_lines_owned(items: &[Box<dyn Sellable>]) -> (lines: Vec<String>)
    ensures
        lines@.len() == items@.len(),
        forall|i: int|
            0 <= i < items@.len() ==> (#[trigger] lines@[i])@ == vendor_text_of(&*items@[i]),
        lines.deep_view() == owned_lines(items@),
{
    let mut lines: Vec<String> = Vec::new();
    let mut done: usize = 0;
    while done < items.len()
        invariant
            done <= items@.len(),
            lines@.len() == done,
            forall|i: int|
                0 <= i < done ==> (#[trigger] lines@[i])@ == vendor_text_of(&*items@[i]),
        decreases items@.len() - done,
    {
        let line = vendor_text_any(&*items[done]);
        lines.push(line);
        done += 1;
    }
    assert(lines.deep_view() =~= owned_lines(items@));
    lines
}

/// An item is offered in the same words whether its type is known or
/// hidden behind a handle: every handle to the same item gives the offer
/// that the item itself gives.
pub proof fn lemma_dispatch_agreement<T: Sellable>(item: &T)
    ensures
        forall|handle: &dyn Sellable|
            same_item(item, handle) ==> vendor_text_of(item) == #[trigger] vendor_text_of(handle),
{
}

/// A collection of borrowed handles and a collection of owning handles
/// that hold the same items in the same order give the same lines.
pub proof fn lemma_ownership_agreement(
    borrowed: Seq<&dyn Sellable>,
    owned: Seq<Box<dyn Sellable>>,
)
    requires
        borrowed.len() == owned.len(),
        forall|i: int| 0 <= i < borrowed.len() ==> same_item(#[trigger] borrowed[i], &*owned[i]),
    ensures
        borrowed_lines(borrowed) == owned_lines(owned),
{
    assert(borrowed_lines(borrowed) =~= owned_lines(owned));
}

} // verus!
