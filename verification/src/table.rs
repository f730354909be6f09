//! The table as the operations rely on it, and what follows for them.
//!
//! The store keeps at most one item under each pair of hash key and sort key, puts and
//! removes one item at a time, and answers a query with the items of one hash key in the
//! order of their sort keys. Nothing here runs: these are the terms in which the
//! requests and answers of the data-access object are held against each other.

use vstd::prelude::*;
use crate::codec::{lemma_names_differ, lemma_reads_back, record_of, text_of};
use crate::identifier::Uuid;
use crate::inventory_dao::{
    cursor_of,
    found_record,
    key_attributes,
    key_of,
    page_of,
    records_of,
    start_key,
    stored_item,
};
use crate::item::ItemView;
use crate::key::{delimiter_free, hash_key, hash_key_identifies, sort_key, sort_key_identifies};
use crate::model::InventoryView;

verus! {

/// The contents of a table: the item under each pair of hash key and sort key in use.
pub type TableView = Map<(Seq<char>, Seq<char>), ItemView>;

/// The pair of keys that an item or a key names, where it holds both as texts.
pub open spec fn item_key(item: ItemView) -> Option<(Seq<char>, Seq<char>)> {
    match (text_of(item, "customerAndVesselId"@), text_of(item, "inventoryKey"@)) {
        (Some(hash), Some(sort)) => Some((hash, sort)),
        _ => None,
    }
}

/// The sort key that an item or a key names.
pub open spec fn sort_of(item: ItemView) -> Seq<char> {
    match text_of(item, "inventoryKey"@) {
        Some(sort) => sort,
        None => Seq::empty(),
    }
}

/// The table after a put: the item stands under its keys, in place of what was there.
pub open spec fn after_put(table: TableView, item: ItemView) -> TableView {
    match item_key(item) {
        Some(keys) => table.insert(keys, item),
        None => table,
    }
}

/// The answer to a read: the item under the keys, if there is one.
pub open spec fn read(table: TableView, key: ItemView) -> Option<ItemView> {
    match item_key(key) {
        Some(keys) => if table.contains_key(keys) {
            Some(table[keys])
        } else {
            None
        },
        None => None,
    }
}

/// The table after a removal: nothing stands under the keys.
pub open spec fn after_delete(table: TableView, key: ItemView) -> TableView {
    match item_key(key) {
        Some(keys) => table.remove(keys),
        None => table,
    }
}

/// Whether one text comes before another in the store's order: character by character,
/// a text before those that it begins.
pub open spec fn precedes(left: Seq<char>, right: Seq<char>) -> bool
    decreases left.len(),
{
    if right.len() == 0 {
        false
    } else if left.len() == 0 {
        true
    } else if left[0] != right[0] {
        left[0] < right[0]
    } else {
        precedes(left.drop_first(), right.drop_first())
    }
}

/// Whether a sort key lies behind the start of a query.
pub open spec fn behind_start(sort: Seq<char>, start: Option<ItemView>) -> bool {
    match start {
        Some(key) => match item_key(key) {
            Some((_, first)) => precedes(first, sort),
            None => false,
        },
        None => true,
    }
}

/// Whether a page is an answer of the table to a query for a hash key from a start key.
/// The page holds items of that hash key from behind the start, in the order of their
/// sort keys and without a gap. Without a last evaluated key it holds all of them;
/// a last evaluated key is the key of the last item of the page.
pub open spec fn answers(
    table: TableView,
    hash: Seq<char>,
    start: Option<ItemView>,
    items: Seq<ItemView>,
    last_evaluated_key: Option<ItemView>,
) -> bool {
    &&& forall|i: int|
        0 <= i < items.len() ==> match item_key(#[trigger] items[i]) {
            Some((of, sort)) => of == hash && behind_start(sort, start) && table.contains_key((hash, sort))
                && table[(hash, sort)] == items[i],
            None => false,
        }
    &&& forall|i: int, j: int|
        0 <= i < j < items.len() ==> precedes(sort_of(#[trigger] items[i]), sort_of(#[trigger] items[j]))
    &&& forall|sort: Seq<char>| #[trigger]
        table.contains_key((hash, sort)) && behind_start(sort, start) && (last_evaluated_key is None || (items.len()
            > 0 && !precedes(sort_of(items.last()), sort))) ==> exists|i: int|
            0 <= i < items.len() && #[trigger] item_key(items[i]) == Some((hash, sort))
    &&& match last_evaluated_key {
        Some(key) => items.len() > 0 && key == key_attributes(hash, sort_of(items.last())),
        None => true,
    }
}

/// The keys of an identity are its hash key and its sort key.
proof fn lemma_key_of(customer_id: Uuid, vessel_id: Uuid, inventory_type: Seq<char>, inventory_id: Seq<char>)
    ensures
        item_key(key_of(customer_id, vessel_id, inventory_type, inventory_id)) == Some(
            (hash_key(customer_id, vessel_id), sort_key(inventory_type, inventory_id)),
        ),
{
    lemma_names_differ();
}

/// The stored item of a record stands under the keys of the record's identity.
proof fn lemma_stored_item_key(record: InventoryView)
    ensures
        stored_item(record) is Some ==> item_key(stored_item(record)->0) == Some(
            (hash_key(record.customer_id, record.vessel_id), sort_key(record.inventory_type, record.inventory_id)),
        ),
{
    lemma_names_differ();
}

/// The stored item of a record reads as the record, where the text of the time of
/// creation reads as that time.
proof fn lemma_stored_item_reads_back(record: InventoryView)
    ensures
        record.created_at.survives_text() ==> stored_item(record) is Some && record_of(stored_item(record)->0)
            == Some(record),
{
    if record.created_at.survives_text() {
        lemma_names_differ();
        let created_at = record.created_at.text()->0;
        lemma_reads_back(record, created_at, stored_item(record)->0);
    }
}

/// Identities with the same keys are the same, where their types are free of the
/// delimiter: no two records are stored in one place.
pub proof fn keys_identify(
    customer_a: Uuid,
    vessel_a: Uuid,
    type_a: Seq<char>,
    id_a: Seq<char>,
    customer_b: Uuid,
    vessel_b: Uuid,
    type_b: Seq<char>,
    id_b: Seq<char>,
)
    requires
        delimiter_free(type_a),
        delimiter_free(type_b),
        key_of(customer_a, vessel_a, type_a, id_a) == key_of(customer_b, vessel_b, type_b, id_b),
    ensures
        customer_a == customer_b,
        vessel_a == vessel_b,
        type_a == type_b,
        id_a == id_b,
{
    lemma_key_of(customer_a, vessel_a, type_a, id_a);
    lemma_key_of(customer_b, vessel_b, type_b, id_b);
    hash_key_identifies(customer_a, vessel_a, customer_b, vessel_b);
    sort_key_identifies(type_a, id_a, type_b, id_b);
}

/// After a record is created, a read of its identity finds a record equal to it in
/// every field, a field that is not set being not set. Stated of records whose time of
/// creation survives its text.
pub proof fn create_then_get(table: TableView, record: InventoryView)
    ensures
        record.created_at.survives_text() ==> stored_item(record) is Some && found_record(
            read(
                after_put(table, stored_item(record)->0),
                key_of(record.customer_id, record.vessel_id, record.inventory_type, record.inventory_id),
            ),
        ) == Some(Some(record)),
{
    if record.created_at.survives_text() {
        lemma_stored_item_reads_back(record);
        lemma_stored_item_key(record);
        lemma_key_of(record.customer_id, record.vessel_id, record.inventory_type, record.inventory_id);
    }
}

/// A record that was created is still found after a record of another identity is
/// created, where the types of both are free of the delimiter.
pub proof fn create_other_then_get(table: TableView, record: InventoryView, other: InventoryView)
    requires
        delimiter_free(record.inventory_type),
        delimiter_free(other.inventory_type),
        record.customer_id != other.customer_id || record.vessel_id != other.vessel_id || record.inventory_type
            != other.inventory_type || record.inventory_id != other.inventory_id,
    ensures
        record.created_at.survives_text() && stored_item(other) is Some ==> found_record(
            read(
                after_put(after_put(table, stored_item(record)->0), stored_item(other)->0),
                key_of(record.customer_id, record.vessel_id, record.inventory_type, record.inventory_id),
            ),
        ) == Some(Some(record)),
{
    if record.created_at.survives_text() && stored_item(other) is Some {
        lemma_stored_item_reads_back(record);
        lemma_stored_item_key(record);
        lemma_stored_item_key(other);
        lemma_key_of(record.customer_id, record.vessel_id, record.inventory_type, record.inventory_id);
        if hash_key(record.customer_id, record.vessel_id) == hash_key(other.customer_id, other.vessel_id) {
            hash_key_identifies(record.customer_id, record.vessel_id, other.customer_id, other.vessel_id);
            if sort_key(record.inventory_type, record.inventory_id) == sort_key(
                other.inventory_type,
                other.inventory_id,
            ) {
                sort_key_identifies(
                    record.inventory_type,
                    record.inventory_id,
                    other.inventory_type,
                    other.inventory_id,
                );
            }
        }
    }
}

/// After two records of one identity are created, a read finds the second.
pub proof fn create_twice_then_get(table: TableView, first: InventoryView, second: InventoryView)
    requires
        first.customer_id == second.customer_id,
        first.vessel_id == second.vessel_id,
        first.inventory_type == second.inventory_type,
        first.inventory_id == second.inventory_id,
    ensures
        stored_item(first) is Some && second.created_at.survives_text() ==> found_record(
            read(
                after_put(after_put(table, stored_item(first)->0), stored_item(second)->0),
                key_of(second.customer_id, second.vessel_id, second.inventory_type, second.inventory_id),
            ),
        ) == Some(Some(second)),
{
    create_then_get(after_put(table, stored_item(first)->0), second);
}

/// A read of an identity that has no record finds none: that is no failure of the read.
pub proof fn get_absent(
    table: TableView,
    customer_id: Uuid,
    vessel_id: Uuid,
    inventory_type: Seq<char>,
    inventory_id: Seq<char>,
)
    requires
        !table.contains_key((hash_key(customer_id, vessel_id), sort_key(inventory_type, inventory_id))),
    ensures
        found_record(read(table, key_of(customer_id, vessel_id, inventory_type, inventory_id))) == Some(
            None::<InventoryView>,
        ),
{
    lemma_key_of(customer_id, vessel_id, inventory_type, inventory_id);
}

/// After the record of an identity is removed, a read of that identity finds none.
pub proof fn delete_then_get(
    table: TableView,
    customer_id: Uuid,
    vessel_id: Uuid,
    inventory_type: Seq<char>,
    inventory_id: Seq<char>,
)
    ensures
        found_record(
            read(
                after_delete(table, key_of(customer_id, vessel_id, inventory_type, inventory_id)),
                key_of(customer_id, vessel_id, inventory_type, inventory_id),
            ),
        ) == Some(None::<InventoryView>),
{
    lemma_key_of(customer_id, vessel_id, inventory_type, inventory_id);
}

/// The removal of an identity that has no record leaves the table as it was.
pub proof fn delete_absent(
    table: TableView,
    customer_id: Uuid,
    vessel_id: Uuid,
    inventory_type: Seq<char>,
    inventory_id: Seq<char>,
)
    requires
        read(table, key_of(customer_id, vessel_id, inventory_type, inventory_id)) is None,
    ensures
        after_delete(table, key_of(customer_id, vessel_id, inventory_type, inventory_id)) == table,
{
    lemma_key_of(customer_id, vessel_id, inventory_type, inventory_id);
    let key = key_of(customer_id, vessel_id, inventory_type, inventory_id);
    assert(after_delete(table, key) =~= table);
}

/// A listing of a customer and vessel without records is a page without records and
/// without a page token, with or without a page token to start from.
pub proof fn list_empty_partition(
    table: TableView,
    customer_id: Uuid,
    vessel_id: Uuid,
    page_token: Option<Seq<char>>,
    items: Option<Seq<ItemView>>,
    last_evaluated_key: Option<ItemView>,
)
    requires
        forall|sort: Seq<char>| !table.contains_key((hash_key(customer_id, vessel_id), sort)),
        answers(
            table,
            hash_key(customer_id, vessel_id),
            start_key(customer_id, vessel_id, page_token),
            match items {
                Some(present) => present,
                None => Seq::empty(),
            },
            last_evaluated_key,
        ),
    ensures
        page_of(items, last_evaluated_key) == Some((Seq::<InventoryView>::empty(), None::<Seq<char>>)),
{
    let returned = match items {
        Some(present) => present,
        None => Seq::empty(),
    };
    if returned.len() > 0 {
        assert(table.contains_key((hash_key(customer_id, vessel_id), sort_of(returned[0]))));
    }
    if items is Some {
        assert(records_of(returned)->0 =~= Seq::<InventoryView>::empty());
    }
}

/// The page token of a page starts the next listing behind the last evaluated key: the
/// token is the sort key of that key, and the hash key is that of the customer and vessel.
pub proof fn page_token_resumes(customer_id: Uuid, vessel_id: Uuid, sort: Seq<char>)
    ensures
        cursor_of(Some(key_attributes(hash_key(customer_id, vessel_id), sort))) == Some(sort),
        start_key(customer_id, vessel_id, cursor_of(Some(key_attributes(hash_key(customer_id, vessel_id), sort))))
            == Some(key_attributes(hash_key(customer_id, vessel_id), sort)),
{
    lemma_names_differ();
}

/// Where the store has more, the page token of a page is the sort key of the last record
/// of the page, and the next listing starts behind that record.
pub proof fn page_token_is_last_sort_key(
    table: TableView,
    customer_id: Uuid,
    vessel_id: Uuid,
    page_token: Option<Seq<char>>,
    items: Seq<ItemView>,
    last_evaluated_key: ItemView,
)
    requires
        answers(
            table,
            hash_key(customer_id, vessel_id),
            start_key(customer_id, vessel_id, page_token),
            items,
            Some(last_evaluated_key),
        ),
    ensures
        items.len() > 0,
        cursor_of(Some(last_evaluated_key)) == Some(sort_of(items.last())),
        start_key(customer_id, vessel_id, cursor_of(Some(last_evaluated_key))) == Some(last_evaluated_key),
{
    page_token_resumes(customer_id, vessel_id, sort_of(items.last()));
}

} // verus!
