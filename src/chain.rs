use vstd::prelude::*;

verus! {

/// The chains whose explorers the tool knows of.
#[derive(Debug, Clone, Copy, PartialEq, Eq, Structural)]
pub enum Chain {
    Ethereum,
    Bnb,
    Polygon,
}

/// The human-readable name of a chain, as it appears in synthesized file names.
pub open spec fn chain_name(c: Chain) -> Seq<char> {
    match c {
        Chain::Ethereum => "Ethereum"@,
        Chain::Bnb => "Bnb"@,
        Chain::Polygon => "Polygon"@,
    }
}

impl Chain {
    /// The chain's name, as `chain_name` gives it.
    pub fn name(&self) -> (r: String)
        ensures
            r@ == chain_name(*self),
    {
        match self {
            Chain::Ethereum => String::from_str("Ethereum"),
            Chain::Bnb => String::from_str("Bnb"),
            Chain::Polygon => String::from_str("Polygon"),
        }
    }
}

} // verus!
