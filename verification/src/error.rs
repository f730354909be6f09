//! Failures, and what a caller is told of each.

use vstd::prelude::*;
use vstd::string::*;
use vstd::std_specs::convert::FromSpecImpl;

verus! {

/// A failure of the data-access layer. None of these is retried here, and none is told to
/// a caller in its own words.
#[derive(Clone, Debug, PartialEq, Eq)]
pub enum RuntimeError {
    /// The process is not configured: the table's name is missing. Nothing runs after it.
    ClientConfigLoadingError,
    /// The store or the way to it failed; holds the client's description of the failure.
    StoreError(String),
    /// A stored item does not read as a record.
    MalformedItem,
    /// A record's time of creation has no text to store.
    UnrepresentableTimestamp,
}

/// A failure of an operation, as its caller is to see it.
#[derive(Clone, Debug, PartialEq, Eq)]
pub enum ApiError {
    /// No record has the inventory type and identifier that were asked for.
    InventoryNotFound(String, String),
    /// The data-access layer failed.
    RuntimeError(RuntimeError),
}

/// The one message for every failure of the data-access layer.
pub open spec fn internal_message() -> Seq<char> {
    "Internal error"@
}

/// The message that names an inventory type and identifier as not found.
pub open spec fn not_found_message(inventory_type: Seq<char>, inventory_id: Seq<char>) -> Seq<char> {
    "Inventory "@ + inventory_type + ":"@ + inventory_id + " not found"@
}

impl RuntimeError {
    /// The name under which the failure is reported.
    pub fn error_type(&self) -> (name: String)
        ensures
            name@ == "RuntimeError"@,
    {
        String::from_str("RuntimeError")
    }

    /// What a caller is told: nothing of the failure itself.
    pub fn message(&self) -> (text: String)
        ensures
            text@ == internal_message(),
    {
        String::from_str("Internal error")
    }
}

impl ApiError {
    /// What a caller is told of each failure.
    pub open spec fn message_text(&self) -> Seq<char> {
        match self {
            ApiError::InventoryNotFound(inventory_type, inventory_id) => not_found_message(
                inventory_type@,
                inventory_id@,
            ),
            ApiError::RuntimeError(_) => internal_message(),
        }
    }

    /// The name under which a failure is reported: that of its kind.
    pub open spec fn error_type_text(&self) -> Seq<char> {
        match self {
            ApiError::InventoryNotFound(_, _) => "InventoryNotFound"@,
            ApiError::RuntimeError(_) => "RuntimeError"@,
        }
    }

    /// The name under which the failure is reported.
    pub fn error_type(&self) -> (name: String)
        ensures
            name@ == self.error_type_text(),
    {
        match self {
            ApiError::InventoryNotFound(_, _) => String::from_str("InventoryNotFound"),
            ApiError::RuntimeError(failure) => failure.error_type(),
        }
    }

    /// What a caller is told: which inventory was not found, or that something failed.
    pub fn message(&self) -> (text: String)
        ensures
            text@ == self.message_text(),
    {
        match self {
            ApiError::InventoryNotFound(inventory_type, inventory_id) => {
                let mut text = String::from_str("Inventory ");
                text.append(inventory_type.as_str());
                text.append(":");
                text.append(inventory_id.as_str());
                text.append(" not found");
                text
            },
            ApiError::RuntimeError(failure) => failure.message(),
        }
    }
}

impl From<RuntimeError> for ApiError {
    fn from(failure: RuntimeError) -> (error: ApiError) {
        ApiError::RuntimeError(failure)
    }
}

impl FromSpecImpl<RuntimeError> for ApiError {
    open spec fn obeys_from_spec() -> bool {
        true
    }

    open spec fn from_spec(failure: RuntimeError) -> ApiError {
        ApiError::RuntimeError(failure)
    }
}

} // verus!
