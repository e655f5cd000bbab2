//! Shields: priced by their armor and their block.

use vstd::prelude::*;
use vstd::string::StringExecFns;
use crate::decimal::{append_decimal, decimal_digits};
use crate::item::{same_item, ItemError, Sellable};

verus! {

/// The price of a shield with the given armor and block.
pub open spec fn shield_price(armor: nat, block: nat) -> nat {
    armor + block
}

/// The description of a shield with the given fields.
pub open spec fn shield_description(name: Seq<char>, armor: nat, block: nat) -> Seq<char> {
    name + ", armor: "@ + decimal_digits(armor) + ", block: "@ + decimal_digits(block) + "ms"@
}

/// The fields of a shield as plain values.
pub struct ShieldView {
    pub name: Seq<char>,
    pub armor: nat,
    pub block: nat,
}

impl ShieldView {
    /// The fields form a shield when each fits in 16 bits and so does the
    /// price.
    pub open spec fn valid(self) -> bool {
        &&& self.armor <= u16::MAX
        &&& self.block <= u16::MAX
        &&& shield_price(self.armor, self.block) <= u16::MAX
    }
}

/// A shield. Its fields never change, and its price always fits in 16 bits.
#[derive(Debug)]
pub struct Shield {
    name: String,
    armor: u16,
    block: u16,
}

impl View for Shield {
    type V = ShieldView;

    closed spec fn view(&self) -> ShieldView {
        ShieldView { name: self.name@, armor: self.armor as nat, block: self.block as nat }
    }
}

impl Shield {
    #[verifier::type_invariant]
    spec fn well_formed(self) -> bool {
        self@.valid()
    }

    /// Makes a shield, unless its price would not fit in 16 bits.
    pub fn new(name: String, armor: u16, block: u16) -> (made: Result<Shield, ItemError>)
        ensures
            match made {
                Ok(shield) => {
                    &&& shield@ == (ShieldView {
                        name: name@,
                        armor: armor as nat,
                        block: block as nat,
                    })
                    &&& shield@.valid()
                },
                Err(ItemError::PriceOverflow) => {
                    shield_price(armor as nat, block as nat) > u16::MAX
                },
                Err(ItemError::InvalidDivisor) => false,
            },
    {
        if armor > u16::MAX - block {
            Err(ItemError::PriceOverflow)
        } else {
            Ok(Shield { name, armor, block })
        }
    }

    /// The name of the shield.
    pub fn name(&self) -> (name: &str)
        ensures
            name@ == self@.name,
    {
        self.name.as_str()
    }

    /// The armor of the shield.
    pub fn armor(&self) -> (armor: u16)
        ensures
            armor as nat == self@.armor,
    {
        self.armor
    }

    /// The block of the shield.
    pub fn block(&self) -> (block: u16)
        ensures
            block as nat == self@.block,
    {
        self.block
    }
}

impl Sellable for Shield {
    open spec fn price_spec(&self) -> nat {
        shield_price(self@.armor, self@.block)
    }

    open spec fn description_spec(&self) -> Seq<char> {
        shield_description(self@.name, self@.armor, self@.block)
    }

    /// The price of a shield is its armor plus its block.
    fn price(&self) -> (price: u16)
        ensures
            price as nat == self@.armor + self@.block,
    {
        proof {
            use_type_invariant(self);
        }
        self.armor + self.block
    }

    /// The description of a shield names it and states its armor and block.
    fn description(&self) -> (text: String)
        ensures
            text@ == shield_description(self@.name, self@.armor, self@.block),
    {
        let mut text = self.name.clone();
        text.append(", armor: ");
        append_decimal(&mut text, self.armor);
        text.append(", block: ");
        append_decimal(&mut text, self.block);
        text.append("ms");
        text
    }
}

/// A shield behind a handle that hides its type is the same item as the
/// shield itself.
pub proof fn lemma_shield_behind_handle(shield: &Shield)
    ensures
        ({
            let handle: &dyn Sellable = shield;
            same_item(shield, handle)
        }),
{
}

/// The description of a shield depends on its fields alone.
pub proof fn lemma_shield_description_by_fields(a: Shield, b: Shield)
    requires
        a@ == b@,
    ensures
        a.description_spec() == b.description_spec(),
{
}

} // verus!
