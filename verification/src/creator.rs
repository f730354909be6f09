//! The operation that adds an inventory record.

use vstd::prelude::*;
use crate::error::{ApiError, RuntimeError};
use crate::identifier::Uuid;
use crate::inventory_dao::{stored_item, InventoryDao, PutItemInput};
use crate::model::{option_text, Inventory, InventoryView};
use crate::timestamp::Timestamp;

verus! {

/// What a caller sends to add a record.
#[derive(Clone, Debug, PartialEq, Eq)]
pub struct Request {
    pub customer_id: Uuid,
    pub vessel_id: Uuid,
    pub inventory_type: String,
    pub inventory_id: String,
    pub serial_number: Option<String>,
    pub aws_instance_id: Option<String>,
}

/// What the caller gets back: the type and identifier of the record that was added.
#[derive(Clone, Debug, PartialEq, Eq)]
pub struct Response {
    pub inventory_type: String,
    pub inventory_id: String,
}

impl Request {
    /// The record that the request asks for, created at the given time.
    pub open spec fn record(&self, created_at: Timestamp) -> InventoryView {
        InventoryView {
            customer_id: self.customer_id,
            vessel_id: self.vessel_id,
            inventory_type: self.inventory_type@,
            inventory_id: self.inventory_id@,
            serial_number: option_text(self.serial_number),
            aws_instance_id: option_text(self.aws_instance_id),
            created_at,
        }
    }
}

/// A copy of a text that may be missing.
fn copy_of(text: &Option<String>) -> (copy: Option<String>)
    ensures
        option_text(copy) == option_text(*text),
{
    match text {
        Some(present) => Some(present.clone()),
        None => None,
    }
}

/// The put that adds the record of a request. The time of creation is the time at which
/// the request is served; it is set here and never again.
pub fn begin(dao: &InventoryDao, request: &Request, created_at: Timestamp) -> (put: Result<PutItemInput, ApiError>)
    ensures
        match put {
            Ok(input) => input.table_name@ == dao.table() && stored_item(request.record(created_at)) == Some(
                input.item@,
            ),
            Err(failure) => stored_item(request.record(created_at)) is None && failure == ApiError::RuntimeError(
                RuntimeError::UnrepresentableTimestamp,
            ),
        },
{
    let inventory = Inventory {
        customer_id: request.customer_id,
        vessel_id: request.vessel_id,
        inventory_type: request.inventory_type.clone(),
        inventory_id: request.inventory_id.clone(),
        serial_number: copy_of(&request.serial_number),
        aws_instance_id: copy_of(&request.aws_instance_id),
        created_at,
    };
    match dao.create_inventory(inventory) {
        Ok(input) => Ok(input),
        Err(failure) => Err(ApiError::from(failure)),
    }
}

/// The response once the store has answered the put: the type and identifier of the
/// request, or the store's failure.
pub fn finish(request: Request, outcome: Result<(), RuntimeError>) -> (response: Result<Response, ApiError>)
    ensures
        match outcome {
            Ok(_) => response == Ok::<Response, ApiError>(
                Response { inventory_type: request.inventory_type, inventory_id: request.inventory_id },
            ),
            Err(failure) => response == Err::<Response, ApiError>(ApiError::RuntimeError(failure)),
        },
{
    match outcome {
        Ok(_) => Ok(Response { inventory_type: request.inventory_type, inventory_id: request.inventory_id }),
        Err(failure) => Err(ApiError::from(failure)),
    }
}

} // verus!
