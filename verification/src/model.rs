//! The inventory record and the page of a listing.

use vstd::prelude::*;
use crate::identifier::Uuid;
use crate::timestamp::Timestamp;

verus! {

/// A text that may be missing, as a sequence of characters.
pub open spec fn option_text(text: Option<String>) -> Option<Seq<char>> {
    match text {
        Some(present) => Some(present@),
        None => None,
    }
}

/// One piece of equipment on a vessel of a customer.
///
/// Customer, vessel, type and identifier together are the identity of the record.
#[derive(Clone, Debug, PartialEq, Eq)]
pub struct Inventory {
    /// Owner.
    pub customer_id: Uuid,
    /// Vessel.
    pub vessel_id: Uuid,
    /// Inventory type.
    pub inventory_type: String,
    /// Inventory identifier, within the type.
    pub inventory_id: String,
    /// Serial number.
    pub serial_number: Option<String>,
    /// Identifier of the instance in AWS Systems Manager.
    pub aws_instance_id: Option<String>,
    /// When the inventory was added.
    pub created_at: Timestamp,
}

/// A record with its texts as sequences of characters.
pub struct InventoryView {
    pub customer_id: Uuid,
    pub vessel_id: Uuid,
    pub inventory_type: Seq<char>,
    pub inventory_id: Seq<char>,
    pub serial_number: Option<Seq<char>>,
    pub aws_instance_id: Option<Seq<char>>,
    pub created_at: Timestamp,
}

impl View for Inventory {
    type V = InventoryView;

    open spec fn view(&self) -> InventoryView {
        InventoryView {
            customer_id: self.customer_id,
            vessel_id: self.vessel_id,
            inventory_type: self.inventory_type@,
            inventory_id: self.inventory_id@,
            serial_number: option_text(self.serial_number),
            aws_instance_id: option_text(self.aws_instance_id),
            created_at: self.created_at,
        }
    }
}

/// The records of a sequence, each by its view.
pub open spec fn inventory_views(records: Seq<Inventory>) -> Seq<InventoryView> {
    records.map_values(|record: Inventory| record@)
}

/// One page of a query: the items in the store's order, and the key to go on from where
/// the store has more.
#[derive(Clone, Debug, PartialEq, Eq)]
pub struct DynamoResultsPage<T, K> {
    pub items: Vec<T>,
    pub last_evaluated_key: Option<K>,
}

} // verus!
