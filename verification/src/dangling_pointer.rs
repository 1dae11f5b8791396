//! A small ownership demonstration: a vector of grain kinds is built and then
//! given up, so no pointer into it can outlive it.

use vstd::prelude::*;

verus! {

/// The grain kinds the demonstration vector can hold.
#[allow(dead_code)]
enum Cereal {
    Barley,
    Millet,
    Rice,
    Rye,
    Spelt,
    Wheat,
}

/// Builds a vector of grains and lets it go out of scope: after this function
/// returns, nothing refers to the vector's storage.
pub fn dangling_pointer() {
    let mut grains: Vec<Cereal> = Vec::new();
    grains.push(Cereal::Rye);
}

} // verus!
