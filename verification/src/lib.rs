//! Priced catalog items for a vendor: swords and shields that can each name
//! their price and describe themselves, and the offer lines a vendor makes of
//! them, one item at a time or over a mixed collection of item handles.

pub mod decimal;
pub mod item;
pub mod shield;
pub mod sword;
pub mod vendor;

pub use item::{ItemError, Sellable};
pub use shield::Shield;
pub use sword::Sword;
pub use vendor::{
    format_offer, vendor_lines_borrowed, vendor_lines_owned, vendor_text_any, vendor_text_dynamic,
    vendor_text_static,
};
