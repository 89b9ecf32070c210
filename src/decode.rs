use crate::document::{text_is, unsigned_of, Value};
use crate::error::{
    field_text, nested_under, viewed, DecodeError, DecodeErrorView, Expected, Field, PathSegment,
};
use crate::record::{Builtin, BuiltinView, PricingAt};
use vstd::prelude::*;

verus! {

// ---------------------------------------------------------------------------
// A priced entry: a map with exactly `price` and `at`, both unsigned.
/// The field of a priced entry that a key names, if any.
pub open spec fn pricing_at_field_of(k: Seq<char>) -> Option<Field> {
    if k == field_text(Field::Price) {
        Some(Field::Price)
    } else if k == field_text(Field::At) {
        Some(Field::At)
    } else {
        None
    }
}

/// The keys that a priced entry accepts.
pub open spec fn pricing_at_fields() -> Seq<Field> {
    seq![Field::Price, Field::At]
}

/// What has been read of a priced entry so far.
pub struct PricingAtSlots {
    pub price: Option<u64>,
    pub at: Option<u64>,
}

pub open spec fn pricing_at_start() -> PricingAtSlots {
    PricingAtSlots { price: None, at: None }
}

/// Reading one key/value pair of a priced entry.
pub open spec fn pricing_at_step(s: PricingAtSlots, entry: (String, Value)) -> Result<
    PricingAtSlots,
    DecodeErrorView,
> {
    match pricing_at_field_of(entry.0@) {
        None => Err(DecodeErrorView::UnknownField { key: entry.0@, accepted: pricing_at_fields() }),
        Some(f) => if (f == Field::Price && s.price is Some) || (f == Field::At && s.at is Some) {
            Err(DecodeErrorView::DuplicateField { field: f })
        } else {
            match unsigned_of(entry.1) {
                None => Err(
                    DecodeErrorView::ShapeMismatch {
                        path: seq![PathSegment::Field(f)],
                        expected: Expected::Unsigned,
                    },
                ),
                Some(n) => if f == Field::Price {
                    Ok(PricingAtSlots { price: Some(n), at: s.at })
                } else {
                    Ok(PricingAtSlots { price: s.price, at: Some(n) })
                },
            }
        },
    }
}

/// Reading the pairs of a priced entry in order; the first failure stops it.
pub open spec fn pricing_at_scan(s: PricingAtSlots, entries: Seq<(String, Value)>) -> Result<
    PricingAtSlots,
    DecodeErrorView,
>
    decreases entries.len(),
{
    if entries.len() == 0 {
        Ok(s)
    } else {
        match pricing_at_step(s, entries[0]) {
            Ok(next) => pricing_at_scan(next, entries.drop_first()),
            Err(e) => Err(e),
        }
    }
}

/// The priced entry that a map's pairs decode to.
pub open spec fn pricing_at_of_entries(entries: Seq<(String, Value)>) -> Result<
    PricingAt,
    DecodeErrorView,
> {
    match pricing_at_scan(pricing_at_start(), entries) {
        Err(e) => Err(e),
        Ok(s) => if s.price is None {
            Err(DecodeErrorView::MissingField { field: Field::Price })
        } else if s.at is None {
            Err(DecodeErrorView::MissingField { field: Field::At })
        } else {
            Ok(PricingAt { price: s.price->0, at: s.at->0 })
        },
    }
}

/// The priced entry that a value decodes to.
pub open spec fn pricing_at_of(v: Value) -> Result<PricingAt, DecodeErrorView> {
    match v {
        Value::Object(entries) => pricing_at_of_entries(entries@),
        _ => Err(DecodeErrorView::ShapeMismatch { path: seq![], expected: Expected::Object }),
    }
}

// ---------------------------------------------------------------------------
// The pricing history: a sequence of priced entries.
/// Decoding the elements `rest` of a sequence whose first `done.len()`
/// elements decoded to `done`.
pub open spec fn pricing_items(done: Seq<PricingAt>, rest: Seq<Value>) -> Result<
    Seq<PricingAt>,
    DecodeErrorView,
>
    decreases rest.len(),
{
    if rest.len() == 0 {
        Ok(done)
    } else {
        match pricing_at_of(rest[0]) {
            Ok(p) => pricing_items(done.push(p), rest.drop_first()),
            Err(e) => Err(nested_under(e, PathSegment::Index(done.len() as usize))),
        }
    }
}

/// The pricing history that a value decodes to.
pub open spec fn pricing_of(v: Value) -> Result<Seq<PricingAt>, DecodeErrorView> {
    match v {
        Value::Array(items) => pricing_items(seq![], items@),
        _ => Err(DecodeErrorView::ShapeMismatch { path: seq![], expected: Expected::Sequence }),
    }
}

// ---------------------------------------------------------------------------
// The record: a map with exactly `name`, `pricing` and `at`.
/// The field of the record that a key names, if any.
pub open spec fn builtin_field_of(k: Seq<char>) -> Option<Field> {
    if k == field_text(Field::Name) {
        Some(Field::Name)
    } else if k == field_text(Field::Pricing) {
        Some(Field::Pricing)
    } else if k == field_text(Field::At) {
        Some(Field::At)
    } else {
        None
    }
}

/// The keys that the record accepts.
pub open spec fn builtin_fields() -> Seq<Field> {
    seq![Field::Name, Field::Pricing, Field::At]
}

/// What has been read of the record so far.
pub struct BuiltinSlots {
    pub name: Option<Seq<char>>,
    pub pricing: Option<Seq<PricingAt>>,
    pub at: Option<u64>,
}

pub open spec fn builtin_start() -> BuiltinSlots {
    BuiltinSlots { name: None, pricing: None, at: None }
}

/// Whether the slot of a field of the record is taken.
pub open spec fn slot_filled(s: BuiltinSlots, f: Field) -> bool {
    match f {
        Field::Name => s.name is Some,
        Field::Pricing => s.pricing is Some,
        _ => s.at is Some,
    }
}

/// Reading one key/value pair of the record.
pub open spec fn builtin_step(s: BuiltinSlots, entry: (String, Value)) -> Result<
    BuiltinSlots,
    DecodeErrorView,
> {
    match builtin_field_of(entry.0@) {
        None => Err(DecodeErrorView::UnknownField { key: entry.0@, accepted: builtin_fields() }),
        Some(f) => if slot_filled(s, f) {
            Err(DecodeErrorView::DuplicateField { field: f })
        } else {
            match f {
                Field::Name => match entry.1 {
                    Value::Text(t) => Ok(BuiltinSlots { name: Some(t@), pricing: s.pricing, at: s.at }),
                    _ => Err(
                        DecodeErrorView::ShapeMismatch {
                            path: seq![PathSegment::Field(Field::Name)],
                            expected: Expected::Text,
                        },
                    ),
                },
                Field::Pricing => match pricing_of(entry.1) {
                    Ok(ps) => Ok(BuiltinSlots { name: s.name, pricing: Some(ps), at: s.at }),
                    Err(e) => Err(nested_under(e, PathSegment::Field(Field::Pricing))),
                },
                _ => match unsigned_of(entry.1) {
                    Some(n) => Ok(BuiltinSlots { name: s.name, pricing: s.pricing, at: Some(n) }),
                    None => Err(
                        DecodeErrorView::ShapeMismatch {
                            path: seq![PathSegment::Field(Field::At)],
                            expected: Expected::Unsigned,
                        },
                    ),
                },
            }
        },
    }
}

/// Reading the pairs of the record in order; the first failure stops it.
pub open spec fn builtin_scan(s: BuiltinSlots, entries: Seq<(String, Value)>) -> Result<
    BuiltinSlots,
    DecodeErrorView,
>
    decreases entries.len(),
{
    if entries.len() == 0 {
        Ok(s)
    } else {
        match builtin_step(s, entries[0]) {
            Ok(next) => builtin_scan(next, entries.drop_first()),
            Err(e) => Err(e),
        }
    }
}

/// The record that a map's pairs decode to: every pair read without failure,
/// then each field required, in the order `name`, `pricing`, `at`.
pub open spec fn builtin_of_entries(entries: Seq<(String, Value)>) -> Result<
    BuiltinView,
    DecodeErrorView,
> {
    match builtin_scan(builtin_start(), entries) {
        Err(e) => Err(e),
        Ok(s) => if s.name is None {
            Err(DecodeErrorView::MissingField { field: Field::Name })
        } else if s.pricing is None {
            Err(DecodeErrorView::MissingField { field: Field::Pricing })
        } else if s.at is None {
            Err(DecodeErrorView::MissingField { field: Field::At })
        } else {
            Ok(BuiltinView { name: s.name->0, pricing: s.pricing->0, at: s.at->0 })
        },
    }
}

/// The record that a document decodes to.
pub open spec fn builtin_of(v: Value) -> Result<BuiltinView, DecodeErrorView> {
    match v {
        Value::Object(entries) => builtin_of_entries(entries@),
        _ => Err(DecodeErrorView::ShapeMismatch { path: seq![], expected: Expected::Object }),
    }
}

/// The keys that a priced entry accepts, as a list.
fn pricing_at_field_list() -> (r: Vec<Field>)
    ensures
        r@ == pricing_at_fields(),
{
    let mut r: Vec<Field> = Vec::new();
    r.push(Field::Price);
    r.push(Field::At);
    proof {
        assert(r@ =~= pricing_at_fields());
    }
    r
}

impl PricingAt {
    /// Decodes a priced entry from the pairs of a map, in input order.
    pub fn from_entries(entries: &Vec<(String, Value)>) -> (r: Result<PricingAt, DecodeError>)
        ensures
            viewed(r) == pricing_at_of_entries(entries@),
    {
        let mut price: Option<u64> = None;
        let mut at: Option<u64> = None;
        let mut i: usize = 0;
        proof {
            assert(entries@.skip(0) =~= entries@);
        }
        while i < entries.len()
            invariant
                i <= entries.len(),
                pricing_at_scan(pricing_at_start(), entries@) == pricing_at_scan(
                    PricingAtSlots { price, at },
                    entries@.skip(i as int),
                ),
            decreases entries.len() - i,
        {
            let entry = &entries[i];
            proof {
                assert(entries@.skip(i as int)[0] == entries@[i as int]);
                assert(entries@.skip(i as int).drop_first() =~= entries@.skip(i + 1));
            }
            if text_is(&entry.0, Field::Price.name()) {
                if price.is_some() {
                    return Err(DecodeError::DuplicateField { field: Field::Price });
                }
                match entry.1.as_unsigned() {
                    Some(n) => {
                        price = Some(n);
                    },
                    None => {
                        return Err(DecodeError::shape_at(Field::Price, Expected::Unsigned));
                    },
                }
            } else if text_is(&entry.0, Field::At.name()) {
                if at.is_some() {
                    return Err(DecodeError::DuplicateField { field: Field::At });
                }
                match entry.1.as_unsigned() {
                    Some(n) => {
                        at = Some(n);
                    },
                    None => {
                        return Err(DecodeError::shape_at(Field::At, Expected::Unsigned));
                    },
                }
            } else {
                return Err(
                    DecodeError::UnknownField {
                        key: entry.0.clone(),
                        accepted: pricing_at_field_list(),
                    },
                );
            }
            i += 1;
        }
        proof {
            assert(entries@.skip(i as int).len() == 0);
        }
        match (price, at) {
            (Some(price), Some(at)) => Ok(PricingAt { price, at }),
            (None, _) => Err(DecodeError::MissingField { field: Field::Price }),
            (Some(_), None) => Err(DecodeError::MissingField { field: Field::At }),
        }
    }

    /// Decodes a priced entry: a map with exactly the keys `price` and `at`,
    /// each once, each an unsigned integer.
    pub fn deserialize(doc: &Value) -> (r: Result<PricingAt, DecodeError>)
        ensures
            viewed(r) == pricing_at_of(*doc),
    {
        match doc {
            Value::Object(entries) => PricingAt::from_entries(entries),
            _ => Err(DecodeError::shape_here(Expected::Object)),
        }
    }
}

/// Decodes each element of a sequence as a priced entry, in order.
fn pricing_from_items(items: &Vec<Value>) -> (r: Result<Vec<PricingAt>, DecodeError>)
    ensures
        viewed(r) == pricing_items(seq![], items@),
{
    let mut out: Vec<PricingAt> = Vec::new();
    let mut i: usize = 0;
    proof {
        assert(items@.skip(0) =~= items@);
        assert(out@ =~= seq![]);
    }
    while i < items.len()
        invariant
            i <= items.len(),
            out@.len() == i,
            pricing_items(seq![], items@) == pricing_items(out@, items@.skip(i as int)),
        decreases items.len() - i,
    {
        proof {
            assert(items@.skip(i as int)[0] == items@[i as int]);
            assert(items@.skip(i as int).drop_first() =~= items@.skip(i + 1));
        }
        match PricingAt::deserialize(&items[i]) {
            Ok(p) => {
                out.push(p);
            },
            Err(e) => {
                return Err(e.nested_under(PathSegment::Index(i)));
            },
        }
        i += 1;
    }
    proof {
        assert(items@.skip(i as int).len() == 0);
    }
    Ok(out)
}

/// Decodes a pricing history: a sequence of priced entries.
fn pricing_from_value(v: &Value) -> (r: Result<Vec<PricingAt>, DecodeError>)
    ensures
        viewed(r) == pricing_of(*v),
{
    match v {
        Value::Array(items) => pricing_from_items(items),
        _ => Err(DecodeError::shape_here(Expected::Sequence)),
    }
}

/// The keys that the record accepts, as a list.
fn builtin_field_list() -> (r: Vec<Field>)
    ensures
        r@ == builtin_fields(),
{
    let mut r: Vec<Field> = Vec::new();
    r.push(Field::Name);
    r.push(Field::Pricing);
    r.push(Field::At);
    proof {
        assert(r@ =~= builtin_fields());
    }
    r
}

/// The slots of the record as read so far, seen mathematically.
pub open spec fn slots_view(
    name: Option<String>,
    pricing: Option<Vec<PricingAt>>,
    at: Option<u64>,
) -> BuiltinSlots {
    BuiltinSlots {
        name: match name {
            Some(t) => Some(t@),
            None => None,
        },
        pricing: match pricing {
            Some(ps) => Some(ps@),
            None => None,
        },
        at,
    }
}

impl Builtin {
    /// Decodes the record from the pairs of a map, in input order.
    pub fn from_entries(entries: &Vec<(String, Value)>) -> (r: Result<Builtin, DecodeError>)
        ensures
            viewed(r) == builtin_of_entries(entries@),
    {
        let mut name: Option<String> = None;
        let mut pricing: Option<Vec<PricingAt>> = None;
        let mut at: Option<u64> = None;
        let mut i: usize = 0;
        proof {
            assert(entries@.skip(0) =~= entries@);
        }
        while i < entries.len()
            invariant
                i <= entries.len(),
                builtin_scan(builtin_start(), entries@) == builtin_scan(
                    slots_view(name, pricing, at),
                    entries@.skip(i as int),
                ),
            decreases entries.len() - i,
        {
            let entry = &entries[i];
            proof {
                assert(entries@.skip(i as int)[0] == entries@[i as int]);
                assert(entries@.skip(i as int).drop_first() =~= entries@.skip(i + 1));
            }
            if text_is(&entry.0, Field::Name.name()) {
                if name.is_some() {
                    return Err(DecodeError::DuplicateField { field: Field::Name });
                }
                match &entry.1 {
                    Value::Text(t) => {
                        name = Some(t.clone());
                    },
                    _ => {
                        return Err(DecodeError::shape_at(Field::Name, Expected::Text));
                    },
                }
            } else if text_is(&entry.0, Field::Pricing.name()) {
                if pricing.is_some() {
                    return Err(DecodeError::DuplicateField { field: Field::Pricing });
                }
                match pricing_from_value(&entry.1) {
                    Ok(ps) => {
                        pricing = Some(ps);
                    },
                    Err(e) => {
                        return Err(e.nested_under(PathSegment::Field(Field::Pricing)));
                    },
                }
            } else if text_is(&entry.0, Field::At.name()) {
                if at.is_some() {
                    return Err(DecodeError::DuplicateField { field: Field::At });
                }
                match entry.1.as_unsigned() {
                    Some(n) => {
                        at = Some(n);
                    },
                    None => {
                        return Err(DecodeError::shape_at(Field::At, Expected::Unsigned));
                    },
                }
            } else {
                return Err(
                    DecodeError::UnknownField { key: entry.0.clone(), accepted: builtin_field_list() },
                );
            }
            i += 1;
        }
        proof {
            assert(entries@.skip(i as int).len() == 0);
        }
        match (name, pricing, at) {
            (Some(name), Some(pricing), Some(at)) => Ok(Builtin { name, pricing, at }),
            (None, _, _) => Err(DecodeError::MissingField { field: Field::Name }),
            (Some(_), None, _) => Err(DecodeError::MissingField { field: Field::Pricing }),
            (Some(_), Some(_), None) => Err(DecodeError::MissingField { field: Field::At }),
        }
    }

    /// Decodes the record from a document: a map with exactly the keys
    /// `name` (a string), `pricing` (a sequence of priced entries) and `at`
    /// (an unsigned integer), each once. The first offending pair, in input
    /// order, decides the error; missing keys are reported after all pairs
    /// were read.
    pub fn deserialize(doc: &Value) -> (r: Result<Builtin, DecodeError>)
        ensures
            viewed(r) == builtin_of(*doc),
    {
        match doc {
            Value::Object(entries) => Builtin::from_entries(entries),
            _ => Err(DecodeError::shape_here(Expected::Object)),
        }
    }
}

} // verus!
