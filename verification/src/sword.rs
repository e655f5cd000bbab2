//! Swords: priced by the damage they deal over time.

use vstd::prelude::*;
use vstd::string::StringExecFns;
use crate::decimal::{append_decimal, decimal_digits};
use crate::item::{same_item, ItemError, Sellable};

verus! {

/// The price of a sword with the given damage and swing time: the damage
/// is scaled by a thousand, divided by the swing time with the remainder
/// dropped, and the quotient is scaled by ten.
pub open spec fn sword_price(damage: nat, swing_time_ms: nat) -> nat
    recommends
        swing_time_ms > 0,
{
    (damage * 1000) / swing_time_ms * 10
}

/// The description of a sword with the given fields.
pub open spec fn sword_description(name: Seq<char>, damage: nat, swing_time_ms: nat) -> Seq<char> {
    name + ", damage is "@ + decimal_digits(damage) + ", swing time: "@
        + decimal_digits(swing_time_ms) + "ms"@
}

/// The fields of a sword as plain values.
pub struct SwordView {
    pub name: Seq<char>,
    pub damage: nat,
    pub swing_time_ms: nat,
}

impl SwordView {
    /// The fields form a sword when each fits in 16 bits, the swing time is
    /// not zero, and the price fits in 16 bits.
    pub open spec fn valid(self) -> bool {
        &&& self.damage <= u16::MAX
        &&& 0 < self.swing_time_ms <= u16::MAX
        &&& sword_price(self.damage, self.swing_time_ms) <= u16::MAX
    }
}

/// A sword. Its fields never change, its swing time is never zero, and its
/// price always fits in 16 bits.
#[derive(Debug)]
pub struct Sword {
    name: String,
    damage: u16,
    swing_time_ms: u16,
}

impl View for Sword {
    type V = SwordView;

    closed spec fn view(&self) -> SwordView {
        SwordView {
            name: self.name@,
            damage: self.damage as nat,
            swing_time_ms: self.swing_time_ms as nat,
        }
    }
}

/// Computes `sword_price` in 32 bits, where no step can overflow.
fn wide_price(damage: u16, swing_time_ms: u16) -> (price: u32)
    requires
        swing_time_ms > 0,
    ensures
        price as nat == sword_price(damage as nat, swing_time_ms as nat),
{
    let scaled: u32 = damage as u32 * 1000;
    let per_swing: u32 = scaled / swing_time_ms as u32;
    assert(per_swing <= scaled) by (nonlinear_arith)
        requires
            per_swing == scaled / (swing_time_ms as u32),
            swing_time_ms > 0,
    ;
    per_swing * 10
}

impl Sword {
    #[verifier::type_invariant]
    spec fn well_formed(self) -> bool {
        self@.valid()
    }

    /// Makes a sword, unless its swing time is zero or its price would not
    /// fit in 16 bits.
    pub fn new(name: String, damage: u16, swing_time_ms: u16) -> (made: Result<Sword, ItemError>)
        ensures
            match made {
                Ok(sword) => {
                    &&& sword@ == (SwordView {
                        name: name@,
                        damage: damage as nat,
                        swing_time_ms: swing_time_ms as nat,
                    })
                    &&& sword@.valid()
                },
                Err(ItemError::InvalidDivisor) => swing_time_ms == 0,
                Err(ItemError::PriceOverflow) => {
                    &&& swing_time_ms > 0
                    &&& sword_price(damage as nat, swing_time_ms as nat) > u16::MAX
                },
            },
    {
        if swing_time_ms == 0 {
            Err(ItemError::InvalidDivisor)
        } else if wide_price(damage, swing_time_ms) > u16::MAX as u32 {
            Err(ItemError::PriceOverflow)
        } else {
            Ok(Sword { name, damage, swing_time_ms })
        }
    }

    /// The name of the sword.
    pub fn name(&self) -> (name: &str)
        ensures
            name@ == self@.name,
    {
        self.name.as_str()
    }

    /// The damage of the sword.
    pub fn damage(&self) -> (damage: u16)
        ensures
            damage as nat == self@.damage,
    {
        self.damage
    }

    /// The swing time of the sword in milliseconds, which is never zero.
    pub fn swing_time_ms(&self) -> (swing_time_ms: u16)
        ensures
            swing_time_ms as nat == self@.swing_time_ms,
            swing_time_ms > 0,
    {
        proof {
            use_type_invariant(self);
        }
        self.swing_time_ms
    }
}

impl Sellable for Sword {
    open spec fn price_spec(&self) -> nat {
        sword_price(self@.damage, self@.swing_time_ms)
    }

    open spec fn description_spec(&self) -> Seq<char> {
        sword_description(self@.name, self@.damage, self@.swing_time_ms)
    }

    /// The price of a sword is its damage times a thousand, divided by its
    /// swing time with the remainder dropped, times ten.
    fn price(&self) -> (price: u16)
        ensures
            price as nat == (self@.damage * 1000) / self@.swing_time_ms * 10,
    {
        proof {
            use_type_invariant(self);
        }
        wide_price(self.damage, self.swing_time_ms) as u16
    }

    /// The description of a sword names it and states its damage and swing
    /// time.
    fn description(&self) -> (text: String)
        ensures
            text@ == sword_description(self@.name, self@.damage, self@.swing_time_ms),
    {
        let mut text = self.name.clone();
        text.append(", damage is ");
        append_decimal(&mut text, self.damage);
        text.append(", swing time: ");
        append_decimal(&mut text, self.swing_time_ms);
        text.append("ms");
        text
    }
}

/// A sword behind a handle that hides its type is the same item as the
/// sword itself.
pub proof fn lemma_sword_behind_handle(sword: &Sword)
    ensures
        ({
            let handle: &dyn Sellable = sword;
            same_item(sword, handle)
        }),
{
}

/// The description of a sword depends on its fields alone.
pub proof fn lemma_sword_description_by_fields(a: Sword, b: Sword)
    requires
        a@ == b@,
    ensures
        a.description_spec() == b.description_spec(),
{
}

} // verus!
