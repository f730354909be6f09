//! Composite keys: the two texts under which a record is stored.
//!
//! The hash key names the customer and the vessel, the sort key the inventory type and
//! identifier. Each is its two parts joined by the delimiter; neither is ever split again.

use vstd::prelude::*;
use vstd::string::*;
use crate::identifier::{hyphenated, hyphenated_identifies, lemma_hyphenated_digits, Uuid};

verus! {

/// The character that joins the two parts of a key.
pub open spec fn delimiter() -> char {
    ':'
}

/// Whether a text is free of the delimiter.
pub open spec fn delimiter_free(text: Seq<char>) -> bool {
    forall|i: int| 0 <= i < text.len() ==> text[i] != delimiter()
}

/// The hash key of a customer and a vessel: their canonical texts around the delimiter.
pub open spec fn hash_key(customer_id: Uuid, vessel_id: Uuid) -> Seq<char> {
    hyphenated(customer_id.value) + seq![delimiter()] + hyphenated(vessel_id.value)
}

/// The sort key of an inventory type and identifier: the two texts around the delimiter.
pub open spec fn sort_key(inventory_type: Seq<char>, inventory_id: Seq<char>) -> Seq<char> {
    inventory_type + seq![delimiter()] + inventory_id
}

/// Builds the hash key, which selects the records of one vessel of one customer.
pub fn hash_key_of(customer_id: &Uuid, vessel_id: &Uuid) -> (key: String)
    ensures
        key@ == hash_key(*customer_id, *vessel_id),
{
    proof {
        reveal_strlit(":");
    }
    let mut key = customer_id.to_text();
    key.append(":");
    let vessel = vessel_id.to_text();
    key.append(vessel.as_str());
    assert(":"@ =~= seq![delimiter()]);
    key
}

/// Builds the sort key, which orders the records of a vessel and serves as page token.
pub fn sort_key_of(inventory_type: &String, inventory_id: &String) -> (key: String)
    ensures
        key@ == sort_key(inventory_type@, inventory_id@),
{
    proof {
        reveal_strlit(":");
    }
    let mut key = inventory_type.clone();
    key.append(":");
    key.append(inventory_id.as_str());
    assert(":"@ =~= seq![delimiter()]);
    key
}

/// Equal hash keys name the same customer and the same vessel.
pub proof fn hash_key_identifies(customer_a: Uuid, vessel_a: Uuid, customer_b: Uuid, vessel_b: Uuid)
    requires
        hash_key(customer_a, vessel_a) == hash_key(customer_b, vessel_b),
    ensures
        customer_a == customer_b,
        vessel_a == vessel_b,
{
    let key_a = hash_key(customer_a, vessel_a);
    let key_b = hash_key(customer_b, vessel_b);
    lemma_hyphenated_digits(customer_a.value);
    lemma_hyphenated_digits(customer_b.value);
    lemma_hyphenated_digits(vessel_a.value);
    lemma_hyphenated_digits(vessel_b.value);
    assert(hyphenated(customer_a.value) =~= key_a.subrange(0, 36));
    assert(hyphenated(customer_b.value) =~= key_b.subrange(0, 36));
    assert(hyphenated(vessel_a.value) =~= key_a.subrange(37, 73));
    assert(hyphenated(vessel_b.value) =~= key_b.subrange(37, 73));
    hyphenated_identifies(customer_a.value, customer_b.value);
    hyphenated_identifies(vessel_a.value, vessel_b.value);
}

/// Equal sort keys name the same inventory type and identifier, where the types are free
/// of the delimiter. (The identifiers may hold it: the first delimiter of a key ends the
/// type.)
pub proof fn sort_key_identifies(type_a: Seq<char>, id_a: Seq<char>, type_b: Seq<char>, id_b: Seq<char>)
    requires
        delimiter_free(type_a),
        delimiter_free(type_b),
        sort_key(type_a, id_a) == sort_key(type_b, id_b),
    ensures
        type_a == type_b,
        id_a == id_b,
{
    let key_a = sort_key(type_a, id_a);
    let key_b = sort_key(type_b, id_b);
    if type_a.len() < type_b.len() {
        assert(key_a[type_a.len() as int] == delimiter());
        assert(key_b[type_a.len() as int] == type_b[type_a.len() as int]);
    }
    if type_b.len() < type_a.len() {
        assert(key_b[type_b.len() as int] == delimiter());
        assert(key_a[type_b.len() as int] == type_a[type_b.len() as int]);
    }
    let split = type_a.len() as int;
    assert(type_a =~= key_a.subrange(0, split));
    assert(type_b =~= key_b.subrange(0, split));
    assert(id_a =~= key_a.subrange(split + 1, key_a.len() as int));
    assert(id_b =~= key_b.subrange(split + 1, key_b.len() as int));
}

} // verus!
