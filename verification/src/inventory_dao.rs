//! What each operation asks of the store, and what it makes of the answer.
//!
//! Nothing here reaches the store. An operation hands out the request to send, and the
//! caller hands back what the store returned.

use vstd::prelude::*;
use vstd::string::*;
use crate::codec::{from_item, from_items, item_of, record_of, text_of, to_item};
use crate::error::RuntimeError;
use crate::identifier::Uuid;
use crate::item::{AttributeValue, AttributeValueView, Item, ItemView};
use crate::key::{hash_key, hash_key_of, sort_key, sort_key_of};
use crate::model::{inventory_views, option_text, DynamoResultsPage, Inventory, InventoryView};

verus! {

/// A put of one item into a table, replacing the item under the same key, if any.
#[derive(Debug)]
pub struct PutItemInput {
    pub table_name: String,
    pub item: Item,
}

/// A read of the item under a key.
#[derive(Debug)]
pub struct GetItemInput {
    pub table_name: String,
    pub key: Item,
}

/// A removal of the item under a key.
#[derive(Debug)]
pub struct DeleteItemInput {
    pub table_name: String,
    pub key: Item,
}

/// A query for the items that meet a condition on the key, in the order of their sort
/// keys, from behind a start key where one is given.
#[derive(Debug)]
pub struct QueryInput {
    pub table_name: String,
    pub key_condition_expression: String,
    pub expression_attribute_values: Item,
    pub exclusive_start_key: Option<Item>,
}

/// What a read returned.
#[derive(Debug)]
pub struct GetItemOutput {
    pub item: Option<Item>,
}

/// What a query returned: a page of items, and the key of the last item that the store
/// looked at where it has not looked at all.
#[derive(Debug)]
pub struct QueryOutput {
    pub items: Option<Vec<Item>>,
    pub last_evaluated_key: Option<Item>,
}

/// The condition of a listing: the hash key is the one given.
pub open spec fn key_condition() -> Seq<char> {
    "customerAndVesselId = :customerAndVesselId"@
}

/// The two key attributes of a hash key and a sort key.
pub open spec fn key_attributes(hash: Seq<char>, sort: Seq<char>) -> ItemView {
    Map::<Seq<char>, AttributeValueView>::empty().insert("customerAndVesselId"@, AttributeValueView::S(hash)).insert(
        "inventoryKey"@,
        AttributeValueView::S(sort),
    )
}

/// The key of an identity.
pub open spec fn key_of(
    customer_id: Uuid,
    vessel_id: Uuid,
    inventory_type: Seq<char>,
    inventory_id: Seq<char>,
) -> ItemView {
    key_attributes(hash_key(customer_id, vessel_id), sort_key(inventory_type, inventory_id))
}

/// The item that is stored for a record: its attributes and the two key attributes.
pub open spec fn stored_item(record: InventoryView) -> Option<ItemView> {
    match item_of(record) {
        Some(item) => Some(
            item.insert(
                "customerAndVesselId"@,
                AttributeValueView::S(hash_key(record.customer_id, record.vessel_id)),
            ).insert("inventoryKey"@, AttributeValueView::S(sort_key(record.inventory_type, record.inventory_id))),
        ),
        None => None,
    }
}

/// The value that the condition of a listing refers to.
pub open spec fn condition_values(customer_id: Uuid, vessel_id: Uuid) -> ItemView {
    Map::<Seq<char>, AttributeValueView>::empty().insert(
        ":customerAndVesselId"@,
        AttributeValueView::S(hash_key(customer_id, vessel_id)),
    )
}

/// The key that a listing starts behind: none without a page token; with one, the hash
/// key of the customer and vessel and the token as sort key.
pub open spec fn start_key(customer_id: Uuid, vessel_id: Uuid, page_token: Option<Seq<char>>) -> Option<ItemView> {
    match page_token {
        Some(token) => Some(key_attributes(hash_key(customer_id, vessel_id), token)),
        None => None,
    }
}

/// An item that may be missing, as a map.
pub open spec fn option_item(item: Option<Item>) -> Option<ItemView> {
    match item {
        Some(present) => Some(present@),
        None => None,
    }
}

/// The items of a sequence, each as a map.
pub open spec fn item_views(items: Seq<Item>) -> Seq<ItemView> {
    items.map_values(|item: Item| item@)
}

/// The records that items read as, in their order, where every one of them reads.
pub open spec fn records_of(items: Seq<ItemView>) -> Option<Seq<InventoryView>> {
    if forall|i: int| 0 <= i < items.len() ==> record_of(#[trigger] items[i]) is Some {
        Some(Seq::new(items.len(), |i: int| record_of(items[i])->0))
    } else {
        None
    }
}

/// The record that a read found: none where the store had no item.
pub open spec fn found_record(item: Option<ItemView>) -> Option<Option<InventoryView>> {
    match item {
        Some(present) => match record_of(present) {
            Some(record) => Some(Some(record)),
            None => None,
        },
        None => Some(None),
    }
}

/// The page token behind a page: the text of the sort key in the last evaluated key.
/// None where the store gave no such key, and none where the key holds no such text.
pub open spec fn cursor_of(last_evaluated_key: Option<ItemView>) -> Option<Seq<char>> {
    match last_evaluated_key {
        Some(key) => text_of(key, "inventoryKey"@),
        None => None,
    }
}

/// The page that a query's answer reads as: its records, none where the store named no
/// items, and the page token.
pub open spec fn page_of(items: Option<Seq<ItemView>>, last_evaluated_key: Option<ItemView>) -> Option<
    (Seq<InventoryView>, Option<Seq<char>>),
> {
    match items {
        Some(present) => match records_of(present) {
            Some(records) => Some((records, cursor_of(last_evaluated_key))),
            None => None,
        },
        None => Some((Seq::empty(), cursor_of(last_evaluated_key))),
    }
}

/// The data-access object: the table that the records are kept in.
#[derive(Debug)]
pub struct InventoryDao {
    table_name: String,
}

/// Builds the two key attributes.
fn key_item(hash: String, sort: String) -> (key: Item)
    ensures
        key@ == key_attributes(hash@, sort@),
{
    let mut key = Item::new();
    key.insert(String::from_str("customerAndVesselId"), AttributeValue::S(hash));
    key.insert(String::from_str("inventoryKey"), AttributeValue::S(sort));
    key
}

impl InventoryDao {
    /// The name of the table.
    pub closed spec fn table(&self) -> Seq<char> {
        self.table_name@
    }

    /// The name of the table.
    pub fn table_name(&self) -> (name: &String)
        ensures
            name@ == self.table(),
    {
        &self.table_name
    }

    /// Makes the object from the setting that names the table, as the environment gave
    /// it. Without the setting there is no object.
    pub fn load_from_env(inventory_table: Option<String>) -> (loaded: Result<InventoryDao, RuntimeError>)
        ensures
            match loaded {
                Ok(dao) => option_text(inventory_table) == Some(dao.table()),
                Err(failure) => inventory_table is None && failure == RuntimeError::ClientConfigLoadingError,
            },
    {
        match inventory_table {
            Some(table_name) => Ok(InventoryDao::new(table_name)),
            None => Err(RuntimeError::ClientConfigLoadingError),
        }
    }

    /// Makes the object for a table.
    pub fn new(table_name: String) -> (dao: InventoryDao)
        ensures
            dao.table() == table_name@,
    {
        InventoryDao { table_name }
    }

    /// The put that stores a record: all of its attributes and both key attributes, in
    /// one item. No record of the same identity stands in its way.
    pub fn create_inventory(&self, inventory: Inventory) -> (request: Result<PutItemInput, RuntimeError>)
        ensures
            match request {
                Ok(put) => put.table_name@ == self.table() && stored_item(inventory@) == Some(put.item@),
                Err(failure) => stored_item(inventory@) is None && failure
                    == RuntimeError::UnrepresentableTimestamp,
            },
    {
        let hash = hash_key_of(&inventory.customer_id, &inventory.vessel_id);
        let sort = sort_key_of(&inventory.inventory_type, &inventory.inventory_id);
        match to_item(&inventory) {
            Ok(record) => {
                let mut item = record;
                item.insert(String::from_str("customerAndVesselId"), AttributeValue::S(hash));
                item.insert(String::from_str("inventoryKey"), AttributeValue::S(sort));
                Ok(PutItemInput { table_name: self.table_name.clone(), item })
            },
            Err(failure) => Err(failure),
        }
    }

    /// The query that lists the records of a vessel of a customer, from the first one
    /// or from behind the record whose sort key is the page token.
    pub fn list_inventory(&self, customer_id: Uuid, vessel_id: Uuid, page_token: Option<String>) -> (request:
        QueryInput)
        ensures
            request.table_name@ == self.table(),
            request.key_condition_expression@ == key_condition(),
            request.expression_attribute_values@ == condition_values(customer_id, vessel_id),
            option_item(request.exclusive_start_key) == start_key(customer_id, vessel_id, option_text(page_token)),
    {
        let hash = hash_key_of(&customer_id, &vessel_id);
        let mut values = Item::new();
        values.insert(String::from_str(":customerAndVesselId"), AttributeValue::S(hash.clone()));
        let exclusive_start_key = match page_token {
            Some(inventory_key) => Some(key_item(hash, inventory_key)),
            None => None,
        };
        QueryInput {
            table_name: self.table_name.clone(),
            key_condition_expression: String::from_str("customerAndVesselId = :customerAndVesselId"),
            expression_attribute_values: values,
            exclusive_start_key,
        }
    }

    /// The page that the store's answer to a listing holds: the records in the store's
    /// order, and as page token the sort key of the last evaluated key.
    pub fn list_inventory_page(output: &QueryOutput) -> (page: Result<
        DynamoResultsPage<Inventory, String>,
        RuntimeError,
    >)
        ensures
            match page {
                Ok(read) => page_of(
                    match output.items {
                        Some(items) => Some(item_views(items@)),
                        None => None,
                    },
                    option_item(output.last_evaluated_key),
                ) == Some((inventory_views(read.items@), option_text(read.last_evaluated_key))),
                Err(failure) => failure == RuntimeError::MalformedItem && page_of(
                    match output.items {
                        Some(items) => Some(item_views(items@)),
                        None => None,
                    },
                    option_item(output.last_evaluated_key),
                ) is None,
            },
    {
        let last_evaluated_key = match &output.last_evaluated_key {
            Some(key) => match key.get("inventoryKey") {
                Some(AttributeValue::S(inventory_key)) => Some(inventory_key.clone()),
                _ => None,
            },
            None => None,
        };
        match &output.items {
            Some(items) => match from_items(items) {
                Ok(records) => {
                    proof {
                        let views = item_views(items@);
                        assert forall|i: int| 0 <= i < views.len() implies record_of(#[trigger] views[i]) is Some by {
                            assert(record_of(items@[i]@) == Some(records@[i]@));
                        }
                        assert(records_of(views)->0 =~= inventory_views(records@)) by {
                            assert forall|i: int| 0 <= i < views.len() implies records_of(views)->0[i]
                                == inventory_views(records@)[i] by {
                                assert(record_of(items@[i]@) == Some(records@[i]@));
                            }
                        }
                    }
                    Ok(DynamoResultsPage { last_evaluated_key, items: records })
                },
                Err(failure) => {
                    proof {
                        let views = item_views(items@);
                        let i = choose|i: int| 0 <= i < items@.len() && record_of((#[trigger] items@[i])@) is None;
                        assert(record_of(views[i]) is None);
                    }
                    Err(failure)
                },
            },
            None => {
                let records: Vec<Inventory> = Vec::new();
                assert(inventory_views(records@) =~= Seq::empty());
                Ok(DynamoResultsPage { last_evaluated_key, items: records })
            },
        }
    }

    /// The read of the record of an identity.
    pub fn get_inventory(
        &self,
        customer_id: Uuid,
        vessel_id: Uuid,
        inventory_type: String,
        inventory_id: String,
    ) -> (request: GetItemInput)
        ensures
            request.table_name@ == self.table(),
            request.key@ == key_of(customer_id, vessel_id, inventory_type@, inventory_id@),
    {
        let hash = hash_key_of(&customer_id, &vessel_id);
        let sort = sort_key_of(&inventory_type, &inventory_id);
        GetItemInput { table_name: self.table_name.clone(), key: key_item(hash, sort) }
    }

    /// The record that the store's answer to a read holds. That the store has no item
    /// under the key is no failure: then there is no record.
    pub fn get_inventory_record(output: &GetItemOutput) -> (record: Result<Option<Inventory>, RuntimeError>)
        ensures
            match record {
                Ok(Some(found)) => found_record(option_item(output.item)) == Some(Some(found@)),
                Ok(None) => found_record(option_item(output.item)) == Some(None::<InventoryView>),
                Err(failure) => failure == RuntimeError::MalformedItem && found_record(option_item(output.item))
                    is None,
            },
    {
        match &output.item {
            Some(item) => match from_item(item) {
                Ok(found) => Ok(Some(found)),
                Err(failure) => Err(failure),
            },
            None => Ok(None),
        }
    }

    /// The removal of the record of an identity.
    pub fn delete_inventory(
        &self,
        customer_id: Uuid,
        vessel_id: Uuid,
        inventory_type: String,
        inventory_id: String,
    ) -> (request: DeleteItemInput)
        ensures
            request.table_name@ == self.table(),
            request.key@ == key_of(customer_id, vessel_id, inventory_type@, inventory_id@),
    {
        let hash = hash_key_of(&customer_id, &vessel_id);
        let sort = sort_key_of(&inventory_type, &inventory_id);
        DeleteItemInput { table_name: self.table_name.clone(), key: key_item(hash, sort) }
    }
}

} // verus!
