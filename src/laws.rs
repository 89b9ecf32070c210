use crate::decode::{
    builtin_field_of, builtin_fields, builtin_of_entries, builtin_scan, builtin_start,
    builtin_step, pricing_at_of, pricing_at_scan, pricing_at_start, pricing_at_step, PricingAtSlots, pricing_items, slot_filled, BuiltinSlots,
};
use crate::document::Value;
use crate::encode::{encodes_builtin_entries, encodes_pricing, encodes_pricing_at};
use crate::error::{field_text, DecodeErrorView, Field};
use crate::record::{BuiltinView, PricingAt};
use vstd::prelude::*;

verus! {

// ---------------------------------------------------------------------------
// Facts about reading the record's pairs.
/// Reading `a + b` is reading `a`, then `b` from where `a` left off.
proof fn lemma_scan_split(s: BuiltinSlots, a: Seq<(String, Value)>, b: Seq<(String, Value)>)
    ensures
        builtin_scan(s, a + b) == (match builtin_scan(s, a) {
            Ok(t) => builtin_scan(t, b),
            Err(e) => Err(e),
        }),
    decreases a.len(),
{
    if a.len() == 0 {
        assert(a + b =~= b);
    } else {
        assert((a + b)[0] == a[0]);
        assert((a + b).drop_first() =~= a.drop_first() + b);
        if let Ok(next) = builtin_step(s, a[0]) {
            lemma_scan_split(next, a.drop_first(), b);
        }
    }
}

/// A successful read keeps every slot that was taken, and takes the slot of
/// every key it read.
proof fn lemma_scan_fills(s: BuiltinSlots, a: Seq<(String, Value)>, t: BuiltinSlots)
    requires
        builtin_scan(s, a) == Ok::<BuiltinSlots, DecodeErrorView>(t),
    ensures
        forall|f: Field| slot_filled(s, f) ==> slot_filled(t, f),
        forall|k: int|
            0 <= k < a.len() && builtin_field_of(#[trigger] a[k].0@) is Some ==> slot_filled(
                t,
                builtin_field_of(a[k].0@)->0,
            ),
    decreases a.len(),
{
    if a.len() > 0 {
        let next = builtin_step(s, a[0])->Ok_0;
        lemma_scan_fills(next, a.drop_first(), t);
        assert forall|k: int|
            0 <= k < a.len() && builtin_field_of(#[trigger] a[k].0@) is Some implies slot_filled(
                t,
                builtin_field_of(a[k].0@)->0,
            ) by {
            if k > 0 {
                assert(a.drop_first()[k - 1] == a[k]);
            }
        }
    }
}

/// The slots with the slot of `f` emptied.
spec fn cleared(s: BuiltinSlots, f: Field) -> BuiltinSlots {
    match f {
        Field::Name => BuiltinSlots { name: None, pricing: s.pricing, at: s.at },
        Field::Pricing => BuiltinSlots { name: s.name, pricing: None, at: s.at },
        _ => BuiltinSlots { name: s.name, pricing: s.pricing, at: None },
    }
}

/// A successful read from a state in which `f` was taken never touched `f`,
/// so it reads the same from the state in which `f` is empty.
proof fn lemma_scan_without(s: BuiltinSlots, a: Seq<(String, Value)>, t: BuiltinSlots, f: Field)
    requires
        builtin_scan(s, a) == Ok::<BuiltinSlots, DecodeErrorView>(t),
        slot_filled(s, f),
        f == Field::Name || f == Field::Pricing || f == Field::At,
    ensures
        builtin_scan(cleared(s, f), a) == Ok::<BuiltinSlots, DecodeErrorView>(cleared(t, f)),
    decreases a.len(),
{
    if a.len() > 0 {
        let next = builtin_step(s, a[0])->Ok_0;
        assert(builtin_step(cleared(s, f), a[0]) == Ok::<BuiltinSlots, DecodeErrorView>(
            cleared(next, f),
        ));
        lemma_scan_without(next, a.drop_first(), t, f);
    }
}

// ---------------------------------------------------------------------------
// Round trip.
/// Distinct fields are written under distinct keys.
proof fn lemma_field_texts_distinct()
    ensures
        forall|f: Field, g: Field| f != g ==> field_text(f) != field_text(g),
{
    reveal_strlit("name");
    reveal_strlit("pricing");
    reveal_strlit("at");
    reveal_strlit("price");
    assert(field_text(Field::Name).len() == 4);
    assert(field_text(Field::Pricing).len() == 7);
    assert(field_text(Field::At).len() == 2);
    assert(field_text(Field::Price).len() == 5);
}

/// The map `{"price", "at"}` of a priced entry decodes to that entry.
proof fn lemma_pricing_at_encoded(v: Value, p: PricingAt)
    requires
        encodes_pricing_at(v, p),
    ensures
        pricing_at_of(v) == Ok::<PricingAt, DecodeErrorView>(p),
{
    lemma_field_texts_distinct();
    if let Value::Object(entries) = v {
        let e0 = entries@;
        let e1 = e0.drop_first();
        let e2 = e1.drop_first();
        assert(e1[0] == e0[1]);
        assert(e2.len() == 0);
        let s0 = pricing_at_start();
        let s1 = PricingAtSlots { price: Some(p.price), at: None };
        let s2 = PricingAtSlots { price: Some(p.price), at: Some(p.at) };
        assert(pricing_at_step(s0, e0[0]) == Ok::<PricingAtSlots, DecodeErrorView>(s1));
        assert(pricing_at_step(s1, e1[0]) == Ok::<PricingAtSlots, DecodeErrorView>(s2));
        assert(pricing_at_scan(s2, e2) == Ok::<PricingAtSlots, DecodeErrorView>(s2));
        assert(pricing_at_scan(s1, e1) == Ok::<PricingAtSlots, DecodeErrorView>(s2));
        assert(pricing_at_scan(s0, e0) == Ok::<PricingAtSlots, DecodeErrorView>(s2));
    }
}

/// Decoding a sequence of maps that write out the priced entries `ps`, after
/// `done` was decoded, yields `done` followed by `ps`.
proof fn lemma_pricing_items_encoded(done: Seq<PricingAt>, items: Seq<Value>, ps: Seq<PricingAt>)
    requires
        encodes_pricing(items, ps),
    ensures
        pricing_items(done, items) == Ok::<Seq<PricingAt>, DecodeErrorView>(done + ps),
    decreases items.len(),
{
    if items.len() == 0 {
        assert(done + ps =~= done);
    } else {
        assert(encodes_pricing_at(items[0], ps[0]));
        lemma_pricing_at_encoded(items[0], ps[0]);
        assert(encodes_pricing(items.drop_first(), ps.drop_first())) by {
            assert forall|i: int| 0 <= i < items.drop_first().len() implies encodes_pricing_at(
                #[trigger] items.drop_first()[i],
                ps.drop_first()[i],
            ) by {
                assert(encodes_pricing_at(items[i + 1], ps[i + 1]));
            }
        }
        lemma_pricing_items_encoded(done.push(ps[0]), items.drop_first(), ps.drop_first());
        assert(done.push(ps[0]) + ps.drop_first() =~= done + ps);
    }
}

/// Any ordered sequence of priced entries, written out as a sequence of
/// `{"price", "at"}` maps, decodes to the same entries in the same order.
pub proof fn law_pricing_round_trip(items: Seq<Value>, ps: Seq<PricingAt>)
    requires
        encodes_pricing(items, ps),
    ensures
        pricing_items(seq![], items) == Ok::<Seq<PricingAt>, DecodeErrorView>(ps),
{
    lemma_pricing_items_encoded(seq![], items, ps);
    assert(seq![] + ps =~= ps);
}

/// A record written out as the map `{"name", "pricing", "at"}` decodes to
/// itself, its pricing history element for element and in order.
pub proof fn law_builtin_round_trip(entries: Seq<(String, Value)>, b: BuiltinView)
    requires
        encodes_builtin_entries(entries, b),
    ensures
        builtin_of_entries(entries) == Ok::<BuiltinView, DecodeErrorView>(b),
{
    lemma_field_texts_distinct();
    if let Value::Array(items) = entries[1].1 {
        law_pricing_round_trip(items@, b.pricing);
    }
    let e1 = entries.drop_first();
    let e2 = e1.drop_first();
    let e3 = e2.drop_first();
    assert(e1[0] == entries[1]);
    assert(e2[0] == entries[2]);
    assert(e3.len() == 0);
    let s0 = builtin_start();
    let s1 = BuiltinSlots { name: Some(b.name), pricing: None, at: None };
    let s2 = BuiltinSlots { name: Some(b.name), pricing: Some(b.pricing), at: None };
    let s3 = BuiltinSlots { name: Some(b.name), pricing: Some(b.pricing), at: Some(b.at) };
    assert(builtin_step(s0, entries[0]) == Ok::<BuiltinSlots, DecodeErrorView>(s1));
    assert(builtin_step(s1, e1[0]) == Ok::<BuiltinSlots, DecodeErrorView>(s2));
    assert(builtin_step(s2, e2[0]) == Ok::<BuiltinSlots, DecodeErrorView>(s3));
    assert(builtin_scan(s3, e3) == Ok::<BuiltinSlots, DecodeErrorView>(s3));
    assert(builtin_scan(s2, e2) == Ok::<BuiltinSlots, DecodeErrorView>(s3));
    assert(builtin_scan(s1, e1) == Ok::<BuiltinSlots, DecodeErrorView>(s3));
    assert(builtin_scan(s0, entries) == Ok::<BuiltinSlots, DecodeErrorView>(s3));
}

// ---------------------------------------------------------------------------
// Field discipline.
/// A recognised key that appears a second time fails the decode with
/// `DuplicateField` naming that field, whether or not the two values are
/// equal, unless a pair before the second occurrence failed first.
pub proof fn law_duplicate_rejected(entries: Seq<(String, Value)>, i: int, j: int)
    requires
        0 <= i < j < entries.len(),
        entries[i].0@ == entries[j].0@,
        builtin_field_of(entries[i].0@) is Some,
        builtin_scan(builtin_start(), entries.take(j)) is Ok,
    ensures
        builtin_of_entries(entries) == Err::<BuiltinView, DecodeErrorView>(
            DecodeErrorView::DuplicateField { field: builtin_field_of(entries[i].0@)->0 },
        ),
{
    let a = entries.take(j);
    let c = entries.skip(j);
    assert(a + c =~= entries);
    lemma_scan_split(builtin_start(), a, c);
    let t = builtin_scan(builtin_start(), a)->Ok_0;
    lemma_scan_fills(builtin_start(), a, t);
    assert(a[i] == entries[i]);
    assert(c[0] == entries[j]);
}

/// Leaving out any one pair of a document that decodes fails the decode
/// with `MissingField` naming exactly that pair's field.
pub proof fn law_missing_rejected(entries: Seq<(String, Value)>, k: int)
    requires
        builtin_of_entries(entries) is Ok,
        0 <= k < entries.len(),
    ensures
        builtin_of_entries(entries.remove(k)) == Err::<BuiltinView, DecodeErrorView>(
            DecodeErrorView::MissingField { field: builtin_field_of(entries[k].0@)->0 },
        ),
{
    let a = entries.take(k);
    let x = seq![entries[k]];
    let c = entries.skip(k + 1);
    assert(a + (x + c) =~= entries);
    assert(entries.remove(k) =~= a + c);
    lemma_scan_split(builtin_start(), a, x + c);
    let s1 = builtin_scan(builtin_start(), a)->Ok_0;
    lemma_scan_split(s1, x, c);
    assert(x[0] == entries[k]);
    assert(x.drop_first() =~= Seq::<(String, Value)>::empty());
    let s2 = builtin_step(s1, entries[k])->Ok_0;
    assert(builtin_step(s1, entries[k]) is Ok);
    assert(builtin_scan(s2, x.drop_first()) == Ok::<BuiltinSlots, DecodeErrorView>(s2));
    assert(builtin_scan(s1, x) == Ok::<BuiltinSlots, DecodeErrorView>(s2));
    let s3 = builtin_scan(s2, c)->Ok_0;
    let f = builtin_field_of(entries[k].0@)->0;
    assert(slot_filled(s2, f));
    lemma_scan_without(s2, c, s3, f);
    assert(cleared(s2, f) == s1);
    lemma_scan_split(builtin_start(), a, c);
}

/// Adding a pair with an unrecognised key anywhere in a document that
/// decodes fails the decode with `UnknownField` naming that key.
pub proof fn law_unknown_rejected(
    entries: Seq<(String, Value)>,
    k: int,
    key: String,
    value: Value,
)
    requires
        builtin_of_entries(entries) is Ok,
        0 <= k <= entries.len(),
        builtin_field_of(key@) is None,
    ensures
        builtin_of_entries(entries.insert(k, (key, value))) == Err::<BuiltinView, DecodeErrorView>(
            DecodeErrorView::UnknownField { key: key@, accepted: builtin_fields() },
        ),
{
    let a = entries.take(k);
    let c = entries.skip(k);
    let x = seq![(key, value)];
    assert(a + c =~= entries);
    assert(entries.insert(k, (key, value)) =~= a + (x + c));
    lemma_scan_split(builtin_start(), a, c);
    lemma_scan_split(builtin_start(), a, x + c);
    assert((x + c)[0] == (key, value));
}

} // verus!
