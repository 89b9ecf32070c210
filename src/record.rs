use vstd::prelude::*;

verus! {

/// A price alone, with no timestamp.
#[derive(Clone, Copy, Debug, PartialEq, Eq, Structural)]
pub struct Pricing {
    pub price: u64,
}

/// A price together with the timestamp at which it took effect.
#[derive(Clone, Copy, Debug, PartialEq, Eq, Structural)]
pub struct PricingAt {
    pub price: u64,
    pub at: u64,
}

impl View for PricingAt {
    type V = PricingAt;

    open spec fn view(&self) -> PricingAt {
        *self
    }
}

/// The decoded record: a name, its pricing history in input order, and the
/// timestamp of the record as a whole.
#[derive(Clone, Debug, PartialEq, Eq)]
pub struct Builtin {
    pub name: String,
    pub pricing: Vec<PricingAt>,
    pub at: u64,
}

/// The mathematical content of a [`Builtin`].
pub struct BuiltinView {
    pub name: Seq<char>,
    pub pricing: Seq<PricingAt>,
    pub at: u64,
}

impl View for Builtin {
    type V = BuiltinView;

    open spec fn view(&self) -> BuiltinView {
        BuiltinView { name: self.name@, pricing: self.pricing@, at: self.at }
    }
}

} // verus!
