//! The operation that lists the inventory records of a vessel, page by page.

use vstd::prelude::*;
use vstd::std_specs::convert::FromSpecImpl;
use crate::error::RuntimeError;
use crate::identifier::Uuid;
use crate::inventory_dao::{
    condition_values,
    item_views,
    key_condition,
    option_item,
    page_of,
    start_key,
    InventoryDao,
    QueryInput,
    QueryOutput,
};
use crate::model::{inventory_views, option_text, DynamoResultsPage, Inventory, InventoryView};
use crate::timestamp::Timestamp;

verus! {

/// What a caller sends to list records: the customer, the vessel, and the page token of
/// the page before, if this is not the first.
#[derive(Clone, Debug, PartialEq, Eq)]
pub struct Request {
    pub customer_id: Uuid,
    pub vessel_id: Uuid,
    pub page_token: Option<String>,
}

/// One record of a listing: the record without its customer and vessel.
#[derive(Clone, Debug, PartialEq, Eq)]
pub struct InventoryResponse {
    pub inventory_type: String,
    pub inventory_id: String,
    pub serial_number: Option<String>,
    pub aws_instance_id: Option<String>,
    pub created_at: Timestamp,
}

/// What the caller gets back: a page of records, and the page token of the next page
/// where there is one.
#[derive(Clone, Debug, PartialEq, Eq)]
pub struct Response {
    pub inventory: Vec<InventoryResponse>,
    pub page_token: Option<String>,
}

/// A record of a listing with its texts as sequences of characters.
pub struct InventoryResponseView {
    pub inventory_type: Seq<char>,
    pub inventory_id: Seq<char>,
    pub serial_number: Option<Seq<char>>,
    pub aws_instance_id: Option<Seq<char>>,
    pub created_at: Timestamp,
}

/// A page of a listing with its texts as sequences of characters.
pub struct ResponseView {
    pub inventory: Seq<InventoryResponseView>,
    pub page_token: Option<Seq<char>>,
}

impl View for InventoryResponse {
    type V = InventoryResponseView;

    open spec fn view(&self) -> InventoryResponseView {
        InventoryResponseView {
            inventory_type: self.inventory_type@,
            inventory_id: self.inventory_id@,
            serial_number: option_text(self.serial_number),
            aws_instance_id: option_text(self.aws_instance_id),
            created_at: self.created_at,
        }
    }
}

impl View for Response {
    type V = ResponseView;

    open spec fn view(&self) -> ResponseView {
        ResponseView {
            inventory: self.inventory@.map_values(|shown: InventoryResponse| shown@),
            page_token: option_text(self.page_token),
        }
    }
}

/// The entry of a listing that shows a record.
pub open spec fn entry_of(record: InventoryView) -> InventoryResponseView {
    InventoryResponseView {
        inventory_type: record.inventory_type,
        inventory_id: record.inventory_id,
        serial_number: record.serial_number,
        aws_instance_id: record.aws_instance_id,
        created_at: record.created_at,
    }
}

/// The response that shows a page: every record in its place, and the page token.
pub open spec fn response_of(records: Seq<InventoryView>, page_token: Option<Seq<char>>) -> ResponseView {
    ResponseView { inventory: records.map_values(|record: InventoryView| entry_of(record)), page_token }
}

impl From<Inventory> for InventoryResponse {
    fn from(model: Inventory) -> (shown: InventoryResponse)
        ensures
            shown@ == entry_of(model@),
    {
        InventoryResponse {
            inventory_type: model.inventory_type,
            inventory_id: model.inventory_id,
            serial_number: model.serial_number,
            aws_instance_id: model.aws_instance_id,
            created_at: model.created_at,
        }
    }
}

impl FromSpecImpl<Inventory> for InventoryResponse {
    open spec fn obeys_from_spec() -> bool {
        true
    }

    open spec fn from_spec(model: Inventory) -> InventoryResponse {
        InventoryResponse {
            inventory_type: model.inventory_type,
            inventory_id: model.inventory_id,
            serial_number: model.serial_number,
            aws_instance_id: model.aws_instance_id,
            created_at: model.created_at,
        }
    }
}

impl From<DynamoResultsPage<Inventory, String>> for Response {
    fn from(value: DynamoResultsPage<Inventory, String>) -> (response: Response)
        ensures
            response@ == response_of(inventory_views(value.items@), option_text(value.last_evaluated_key)),
    {
        let ghost records = value.items@;
        let mut inventory: Vec<InventoryResponse> = Vec::new();
        for record in records_left: value.items.into_iter()
            invariant
                records_left.seq() == records,
                inventory@.len() == records_left.index(),
                forall|j: int| 0 <= j < inventory@.len() ==> (#[trigger] inventory@[j])@ == entry_of(records[j]@),
        {
            inventory.push(InventoryResponse::from(record));
        }
        let response = Response { inventory, page_token: value.last_evaluated_key };
        assert(response@.inventory =~= response_of(
            inventory_views(records),
            option_text(value.last_evaluated_key),
        ).inventory);
        response
    }
}

impl FromSpecImpl<DynamoResultsPage<Inventory, String>> for Response {
    open spec fn obeys_from_spec() -> bool {
        false
    }

    open spec fn from_spec(value: DynamoResultsPage<Inventory, String>) -> Response {
        arbitrary()
    }
}

/// The query that a request asks for.
pub fn begin(dao: &InventoryDao, request: Request) -> (query: QueryInput)
    ensures
        query.table_name@ == dao.table(),
        query.key_condition_expression@ == key_condition(),
        query.expression_attribute_values@ == condition_values(request.customer_id, request.vessel_id),
        option_item(query.exclusive_start_key) == start_key(
            request.customer_id,
            request.vessel_id,
            option_text(request.page_token),
        ),
{
    dao.list_inventory(request.customer_id, request.vessel_id, request.page_token)
}

/// The response once the store has answered the query: the page that the answer holds,
/// shown record by record in the store's order, with its page token. A failure of the
/// store, or an item that does not read as a record, is passed on.
pub fn finish(outcome: Result<QueryOutput, RuntimeError>) -> (response: Result<Response, RuntimeError>)
    ensures
        match outcome {
            Ok(output) => match page_of(
                match output.items {
                    Some(items) => Some(item_views(items@)),
                    None => None,
                },
                option_item(output.last_evaluated_key),
            ) {
                Some((records, page_token)) => response is Ok && response->Ok_0@ == response_of(
                    records,
                    page_token,
                ),
                None => response == Err::<Response, RuntimeError>(RuntimeError::MalformedItem),
            },
            Err(failure) => response == Err::<Response, RuntimeError>(failure),
        },
{
    match outcome {
        Ok(output) => match InventoryDao::list_inventory_page(&output) {
            Ok(page) => Ok(Response::from(page)),
            Err(failure) => Err(failure),
        },
        Err(failure) => Err(failure),
    }
}

} // verus!
