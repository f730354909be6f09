//! Records as items: which attribute holds which field, and how an item reads back.

use vstd::prelude::*;
use vstd::string::*;
use crate::error::RuntimeError;
use crate::identifier::{hyphenated, hyphenated_reads_back, parsed, Uuid};
use crate::item::{AttributeValue, AttributeValueView, Item, ItemView};
use crate::model::{option_text, Inventory, InventoryView};
use crate::timestamp::Timestamp;

verus! {

/// The attributes of a record whose time of creation has the given text. Every field is
/// a text under its own name; a serial number or instance identifier that is not set has
/// no attribute.
pub open spec fn record_attributes(record: InventoryView, created_at: Seq<char>) -> ItemView {
    let required = Map::<Seq<char>, AttributeValueView>::empty().insert(
        "customerId"@,
        AttributeValueView::S(hyphenated(record.customer_id.value)),
    ).insert("vesselId"@, AttributeValueView::S(hyphenated(record.vessel_id.value))).insert(
        "inventoryType"@,
        AttributeValueView::S(record.inventory_type),
    ).insert("inventoryId"@, AttributeValueView::S(record.inventory_id)).insert(
        "createdAt"@,
        AttributeValueView::S(created_at),
    );
    let with_serial_number = match record.serial_number {
        Some(serial_number) => required.insert("serialNumber"@, AttributeValueView::S(serial_number)),
        None => required,
    };
    match record.aws_instance_id {
        Some(aws_instance_id) => with_serial_number.insert("awsInstanceId"@, AttributeValueView::S(aws_instance_id)),
        None => with_serial_number,
    }
}

/// The item of a record, where its time of creation has a text.
pub open spec fn item_of(record: InventoryView) -> Option<ItemView> {
    match record.created_at.text() {
        Some(created_at) => Some(record_attributes(record, created_at)),
        None => None,
    }
}

/// The text under a name, where the item has a text there.
pub open spec fn text_of(item: ItemView, name: Seq<char>) -> Option<Seq<char>> {
    if item.contains_key(name) {
        match item[name] {
            AttributeValueView::S(text) => Some(text),
            _ => None,
        }
    } else {
        None
    }
}

/// The text under a name that may be unset: no attribute and the store's null both mean
/// unset. `None` where the item has something else there.
pub open spec fn optional_text_of(item: ItemView, name: Seq<char>) -> Option<Option<Seq<char>>> {
    if item.contains_key(name) {
        match item[name] {
            AttributeValueView::S(text) => Some(Some(text)),
            AttributeValueView::Null(true) => Some(None),
            _ => None,
        }
    } else {
        Some(None)
    }
}

/// The record that an item reads as, where it reads as one: every required field a text
/// under its name, the identifiers and the time of creation texts that parse.
/// Attributes of other names are passed over.
pub open spec fn record_of(item: ItemView) -> Option<InventoryView> {
    match (
        text_of(item, "customerId"@),
        text_of(item, "vesselId"@),
        text_of(item, "inventoryType"@),
        text_of(item, "inventoryId"@),
        optional_text_of(item, "serialNumber"@),
        optional_text_of(item, "awsInstanceId"@),
        text_of(item, "createdAt"@),
    ) {
        (
            Some(customer),
            Some(vessel),
            Some(inventory_type),
            Some(inventory_id),
            Some(serial_number),
            Some(aws_instance_id),
            Some(created),
        ) => match (parsed(customer), parsed(vessel), Timestamp::parsed(created)) {
            (Some(customer_id), Some(vessel_id), Some(created_at)) => Some(
                InventoryView {
                    customer_id,
                    vessel_id,
                    inventory_type,
                    inventory_id,
                    serial_number,
                    aws_instance_id,
                    created_at,
                },
            ),
            _ => None,
        },
        _ => None,
    }
}

/// The names of the attributes differ from one another.
pub(crate) proof fn lemma_names_differ()
    ensures
        "customerId"@.len() == 10,
        "vesselId"@.len() == 8,
        "inventoryType"@.len() == 13,
        "inventoryId"@.len() == 11,
        "serialNumber"@.len() == 12,
        "awsInstanceId"@.len() == 13,
        "createdAt"@.len() == 9,
        "customerAndVesselId"@.len() == 19,
        "inventoryKey"@.len() == 12,
        "inventoryType"@[0] == 'i',
        "awsInstanceId"@[0] == 'a',
        "serialNumber"@[0] == 's',
        "inventoryKey"@[0] == 'i',
{
    reveal_strlit("customerId");
    reveal_strlit("vesselId");
    reveal_strlit("inventoryType");
    reveal_strlit("inventoryId");
    reveal_strlit("serialNumber");
    reveal_strlit("awsInstanceId");
    reveal_strlit("createdAt");
    reveal_strlit("customerAndVesselId");
    reveal_strlit("inventoryKey");
}

/// A copy of the text under a name.
fn text_at(item: &Item, name: &str) -> (text: Option<String>)
    ensures
        option_text(text) == text_of(item@, name@),
{
    match item.get(name) {
        Some(AttributeValue::S(text)) => Some(text.clone()),
        _ => None,
    }
}

/// A copy of the text under a name that may be unset.
fn optional_text_at(item: &Item, name: &str) -> (text: Option<Option<String>>)
    ensures
        match text {
            Some(found) => optional_text_of(item@, name@) == Some(option_text(found)),
            None => optional_text_of(item@, name@) is None,
        },
{
    match item.get(name) {
        Some(AttributeValue::S(text)) => Some(Some(text.clone())),
        Some(AttributeValue::Null(true)) => Some(None),
        Some(_) => None,
        None => Some(None),
    }
}

/// Writes a record as an item: one text attribute for each field that is set.
pub fn to_item(inventory: &Inventory) -> (written: Result<Item, RuntimeError>)
    ensures
        match written {
            Ok(item) => item_of(inventory@) == Some(item@),
            Err(failure) => item_of(inventory@) is None && failure == RuntimeError::UnrepresentableTimestamp,
        },
{
    let created_at = match inventory.created_at.to_rfc3339() {
        Some(text) => text,
        None => {
            return Err(RuntimeError::UnrepresentableTimestamp);
        },
    };
    let mut item = Item::new();
    item.insert(String::from_str("customerId"), AttributeValue::S(inventory.customer_id.to_text()));
    item.insert(String::from_str("vesselId"), AttributeValue::S(inventory.vessel_id.to_text()));
    item.insert(String::from_str("inventoryType"), AttributeValue::S(inventory.inventory_type.clone()));
    item.insert(String::from_str("inventoryId"), AttributeValue::S(inventory.inventory_id.clone()));
    item.insert(String::from_str("createdAt"), AttributeValue::S(created_at));
    match &inventory.serial_number {
        Some(serial_number) => {
            item.insert(String::from_str("serialNumber"), AttributeValue::S(serial_number.clone()));
        },
        None => {},
    }
    match &inventory.aws_instance_id {
        Some(aws_instance_id) => {
            item.insert(String::from_str("awsInstanceId"), AttributeValue::S(aws_instance_id.clone()));
        },
        None => {},
    }
    Ok(item)
}

/// Reads an item as a record.
pub fn from_item(item: &Item) -> (read: Result<Inventory, RuntimeError>)
    ensures
        match read {
            Ok(inventory) => record_of(item@) == Some(inventory@),
            Err(failure) => record_of(item@) is None && failure == RuntimeError::MalformedItem,
        },
{
    let customer = text_at(item, "customerId");
    let vessel = text_at(item, "vesselId");
    let inventory_type = text_at(item, "inventoryType");
    let inventory_id = text_at(item, "inventoryId");
    let serial_number = optional_text_at(item, "serialNumber");
    let aws_instance_id = optional_text_at(item, "awsInstanceId");
    let created = text_at(item, "createdAt");
    match (customer, vessel, inventory_type, inventory_id, serial_number, aws_instance_id, created) {
        (
            Some(customer),
            Some(vessel),
            Some(inventory_type),
            Some(inventory_id),
            Some(serial_number),
            Some(aws_instance_id),
            Some(created),
        ) => {
            let customer_id = Uuid::parse_str(customer.as_str());
            let vessel_id = Uuid::parse_str(vessel.as_str());
            let created_at = Timestamp::parse_from_rfc3339(created.as_str());
            match (customer_id, vessel_id, created_at) {
                (Some(customer_id), Some(vessel_id), Some(created_at)) => Ok(
                    Inventory {
                        customer_id,
                        vessel_id,
                        inventory_type,
                        inventory_id,
                        serial_number,
                        aws_instance_id,
                        created_at,
                    },
                ),
                _ => Err(RuntimeError::MalformedItem),
            }
        },
        _ => Err(RuntimeError::MalformedItem),
    }
}

/// Reads items as records, in their order. One item that does not read fails them all.
pub fn from_items(items: &Vec<Item>) -> (read: Result<Vec<Inventory>, RuntimeError>)
    ensures
        match read {
            Ok(records) => records@.len() == items@.len() && forall|i: int|
                0 <= i < items@.len() ==> record_of((#[trigger] items@[i])@) == Some(records@[i]@),
            Err(failure) => failure == RuntimeError::MalformedItem && exists|i: int|
                0 <= i < items@.len() && record_of((#[trigger] items@[i])@) is None,
        },
{
    let mut records: Vec<Inventory> = Vec::new();
    let mut i: usize = 0;
    while i < items.len()
        invariant
            i <= items@.len(),
            records@.len() == i,
            forall|j: int| 0 <= j < i ==> record_of((#[trigger] items@[j])@) == Some(records@[j]@),
        decreases items@.len() - i,
    {
        match from_item(&items[i]) {
            Ok(record) => {
                records.push(record);
            },
            Err(failure) => {
                return Err(failure);
            },
        }
        i += 1;
    }
    Ok(records)
}

/// An item that holds the attributes of a record reads as that record, whatever else it
/// holds under other names, where the text of the time of creation reads as that time.
pub(crate) proof fn lemma_reads_back(record: InventoryView, created_at: Seq<char>, item: ItemView)
    requires
        forall|name: Seq<char>| #[trigger]
            record_attributes(record, created_at).contains_key(name) ==> item.contains_key(name) && item[name]
                == record_attributes(record, created_at)[name],
        record.serial_number is None ==> !item.contains_key("serialNumber"@),
        record.aws_instance_id is None ==> !item.contains_key("awsInstanceId"@),
    ensures
        Timestamp::parsed(created_at) == Some(record.created_at) ==> record_of(item) == Some(record),
{
    lemma_names_differ();
    hyphenated_reads_back(record.customer_id);
    hyphenated_reads_back(record.vessel_id);
    let attributes = record_attributes(record, created_at);
    assert(attributes.contains_key("customerId"@));
    assert(attributes.contains_key("vesselId"@));
    assert(attributes.contains_key("inventoryType"@));
    assert(attributes.contains_key("inventoryId"@));
    assert(attributes.contains_key("createdAt"@));
    if record.serial_number is Some {
        assert(attributes.contains_key("serialNumber"@));
    }
    if record.aws_instance_id is Some {
        assert(attributes.contains_key("awsInstanceId"@));
    }
}

/// Writing a record and reading the item gives the record back, where its time of
/// creation survives its text.
pub proof fn written_item_reads_back(record: InventoryView)
    ensures
        record.created_at.survives_text() ==> item_of(record) is Some && record_of(item_of(record)->0) == Some(
            record,
        ),
{
    if !record.created_at.survives_text() {
        return ;
    }
    lemma_names_differ();
    let created_at = record.created_at.text()->0;
    lemma_reads_back(record, created_at, record_attributes(record, created_at));
}

} // verus!
