//! The operation that returns one inventory record.

use vstd::prelude::*;
use vstd::std_specs::convert::FromSpecImpl;
use crate::error::{ApiError, RuntimeError};
use crate::identifier::Uuid;
use crate::inventory_dao::{found_record, key_of, option_item, GetItemInput, GetItemOutput, InventoryDao};
use crate::model::{option_text, Inventory, InventoryView};
use crate::timestamp::Timestamp;

verus! {

/// What a caller sends to get a record: its identity.
#[derive(Clone, Debug, PartialEq, Eq)]
pub struct Request {
    pub customer_id: Uuid,
    pub vessel_id: Uuid,
    pub inventory_type: String,
    pub inventory_id: String,
}

/// What the caller gets back: the record without its customer and vessel.
#[derive(Clone, Debug, PartialEq, Eq)]
pub struct Response {
    pub inventory_type: String,
    pub inventory_id: String,
    pub serial_number: Option<String>,
    pub aws_instance_id: Option<String>,
    pub created_at: Timestamp,
}

/// A response with its texts as sequences of characters.
pub struct ResponseView {
    pub inventory_type: Seq<char>,
    pub inventory_id: Seq<char>,
    pub serial_number: Option<Seq<char>>,
    pub aws_instance_id: Option<Seq<char>>,
    pub created_at: Timestamp,
}

impl View for Response {
    type V = ResponseView;

    open spec fn view(&self) -> ResponseView {
        ResponseView {
            inventory_type: self.inventory_type@,
            inventory_id: self.inventory_id@,
            serial_number: option_text(self.serial_number),
            aws_instance_id: option_text(self.aws_instance_id),
            created_at: self.created_at,
        }
    }
}

/// The response that shows a record.
pub open spec fn response_of(record: InventoryView) -> ResponseView {
    ResponseView {
        inventory_type: record.inventory_type,
        inventory_id: record.inventory_id,
        serial_number: record.serial_number,
        aws_instance_id: record.aws_instance_id,
        created_at: record.created_at,
    }
}

impl From<Inventory> for Response {
    fn from(model: Inventory) -> (response: Response)
        ensures
            response@ == response_of(model@),
    {
        Response {
            inventory_type: model.inventory_type,
            inventory_id: model.inventory_id,
            serial_number: model.serial_number,
            aws_instance_id: model.aws_instance_id,
            created_at: model.created_at,
        }
    }
}

impl FromSpecImpl<Inventory> for Response {
    open spec fn obeys_from_spec() -> bool {
        true
    }

    open spec fn from_spec(model: Inventory) -> Response {
        Response {
            inventory_type: model.inventory_type,
            inventory_id: model.inventory_id,
            serial_number: model.serial_number,
            aws_instance_id: model.aws_instance_id,
            created_at: model.created_at,
        }
    }
}

/// The read that a request asks for.
pub fn begin(dao: &InventoryDao, request: &Request) -> (read: GetItemInput)
    ensures
        read.table_name@ == dao.table(),
        read.key@ == key_of(request.customer_id, request.vessel_id, request.inventory_type@, request.inventory_id@),
{
    dao.get_inventory(
        request.customer_id,
        request.vessel_id,
        request.inventory_type.clone(),
        request.inventory_id.clone(),
    )
}

/// The response once the store has answered the read. A record that is found is shown.
/// That the store has none is a failure of this operation, told with the type and
/// identifier that were asked for. A failure of the store, or an item that does not read
/// as a record, is passed on.
pub fn finish(request: Request, outcome: Result<GetItemOutput, RuntimeError>) -> (response: Result<
    Response,
    ApiError,
>)
    ensures
        match outcome {
            Ok(output) => match found_record(option_item(output.item)) {
                Some(Some(record)) => response is Ok && response->Ok_0@ == response_of(record),
                Some(None) => response == Err::<Response, ApiError>(
                    ApiError::InventoryNotFound(request.inventory_type, request.inventory_id),
                ),
                None => response == Err::<Response, ApiError>(
                    ApiError::RuntimeError(RuntimeError::MalformedItem),
                ),
            },
            Err(failure) => response == Err::<Response, ApiError>(ApiError::RuntimeError(failure)),
        },
{
    match outcome {
        Ok(output) => match InventoryDao::get_inventory_record(&output) {
            Ok(Some(found)) => Ok(Response::from(found)),
            Ok(None) => Err(ApiError::InventoryNotFound(request.inventory_type, request.inventory_id)),
            Err(failure) => Err(ApiError::from(failure)),
        },
        Err(failure) => Err(ApiError::from(failure)),
    }
}

} // verus!
