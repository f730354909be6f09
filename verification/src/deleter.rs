//! The operation that removes an inventory record.

use vstd::prelude::*;
use crate::identifier::Uuid;
use crate::inventory_dao::{key_of, DeleteItemInput, InventoryDao};

verus! {

/// What a caller sends to remove a record: its identity.
#[derive(Clone, Debug, PartialEq, Eq)]
pub struct Request {
    pub customer_id: Uuid,
    pub vessel_id: Uuid,
    pub inventory_type: String,
    pub inventory_id: String,
}

/// The removal that a request asks for. Whether the record exists is not asked: the
/// store's answer to the removal is the outcome of the operation.
pub fn begin(dao: &InventoryDao, request: Request) -> (removal: DeleteItemInput)
    ensures
        removal.table_name@ == dao.table(),
        removal.key@ == key_of(
            request.customer_id,
            request.vessel_id,
            request.inventory_type@,
            request.inventory_id@,
        ),
{
    dao.delete_inventory(request.customer_id, request.vessel_id, request.inventory_type, request.inventory_id)
}

} // verus!
