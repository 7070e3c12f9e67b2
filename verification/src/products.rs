//! The shopping cart.
use vstd::prelude::*;

verus! {

/// A line of a cart: which product and how many.
#[derive(Clone, Copy, Debug, PartialEq, Eq, Structural)]
pub struct CartItem {
    pub product_id: u64,
    pub quantity: u32,
}

} // verus!
