use crate::document::Value;
use crate::error::{field_text, Field};
use crate::record::{Builtin, BuiltinView, PricingAt};
use vstd::prelude::*;

verus! {

/// Whether `v` is the map `{"price": p.price, "at": p.at}`, in that order.
pub open spec fn encodes_pricing_at(v: Value, p: PricingAt) -> bool {
    match v {
        Value::Object(entries) => {
            &&& entries@.len() == 2
            &&& entries@[0].0@ == field_text(Field::Price)
            &&& entries@[0].1 == Value::UInt(p.price)
            &&& entries@[1].0@ == field_text(Field::At)
            &&& entries@[1].1 == Value::UInt(p.at)
        },
        _ => false,
    }
}

/// Whether `items` are the priced entries `ps`, one map each, in the same order.
pub open spec fn encodes_pricing(items: Seq<Value>, ps: Seq<PricingAt>) -> bool {
    &&& items.len() == ps.len()
    &&& forall|i: int| 0 <= i < items.len() ==> encodes_pricing_at(#[trigger] items[i], ps[i])
}

/// Whether `entries` are the pairs `name`, `pricing`, `at` of the record `b`,
/// in that order.
pub open spec fn encodes_builtin_entries(entries: Seq<(String, Value)>, b: BuiltinView) -> bool {
    &&& entries.len() == 3
    &&& entries[0].0@ == field_text(Field::Name)
    &&& (match entries[0].1 {
        Value::Text(t) => t@ == b.name,
        _ => false,
    })
    &&& entries[1].0@ == field_text(Field::Pricing)
    &&& (match entries[1].1 {
        Value::Array(items) => encodes_pricing(items@, b.pricing),
        _ => false,
    })
    &&& entries[2].0@ == field_text(Field::At)
    &&& entries[2].1 == Value::UInt(b.at)
}

/// Whether `v` is the map that writes out the record `b`.
pub open spec fn encodes_builtin(v: Value, b: BuiltinView) -> bool {
    match v {
        Value::Object(entries) => encodes_builtin_entries(entries@, b),
        _ => false,
    }
}

impl PricingAt {
    /// Writes the priced entry out as the map `{"price": .., "at": ..}`.
    pub fn to_value(&self) -> (r: Value)
        ensures
            encodes_pricing_at(r, *self),
    {
        let mut entries: Vec<(String, Value)> = Vec::new();
        entries.push((Field::Price.name().to_owned(), Value::UInt(self.price)));
        entries.push((Field::At.name().to_owned(), Value::UInt(self.at)));
        Value::Object(entries)
    }
}

impl Builtin {
    /// Writes the record out as the map `{"name": .., "pricing": [..], "at": ..}`.
    pub fn to_value(&self) -> (r: Value)
        ensures
            encodes_builtin(r, self@),
    {
        let mut items: Vec<Value> = Vec::new();
        let mut i: usize = 0;
        while i < self.pricing.len()
            invariant
                i <= self.pricing.len(),
                items@.len() == i,
                forall|j: int| 0 <= j < i ==> encodes_pricing_at(#[trigger] items@[j], self.pricing@[j]),
            decreases self.pricing.len() - i,
        {
            items.push(self.pricing[i].to_value());
            i += 1;
        }
        let mut entries: Vec<(String, Value)> = Vec::new();
        entries.push((Field::Name.name().to_owned(), Value::Text(self.name.clone())));
        entries.push((Field::Pricing.name().to_owned(), Value::Array(items)));
        entries.push((Field::At.name().to_owned(), Value::UInt(self.at)));
        Value::Object(entries)
    }
}

} // verus!
