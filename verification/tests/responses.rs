use chrono::{DateTime, FixedOffset, TimeZone, Utc};
use inventory_core::{fetcher, lister, DynamoResultsPage, Inventory, Timestamp, Uuid};

const INVENTORY_TYPE: &str = "pc";
const INVENTORY_ID: &str = "0";
const PAGE_TOKEN: &str = "abc";

fn customer_id() -> Uuid {
    Uuid::parse_str("00000000-0000-0000-0000-000000000000").unwrap()
}

fn vessel_id() -> Uuid {
    Uuid::parse_str("00000000-0000-0000-0000-000000000001").unwrap()
}

fn timestamp_of(value: DateTime<FixedOffset>) -> Timestamp {
    Timestamp {
        seconds: value.timestamp(),
        nanoseconds: value.timestamp_subsec_nanos(),
        offset_seconds: value.offset().local_minus_utc(),
    }
}

#[test]
fn response_from_model() {
    const SERIAL_NUMBER: &str = "abc";
    let created_at = Utc
        .with_ymd_and_hms(2015, 7, 2, 1, 20, 0)
        .unwrap()
        .with_timezone(&FixedOffset::east_opt(7200).unwrap());

    let response = fetcher::Response::from(Inventory {
        customer_id: customer_id(),
        vessel_id: vessel_id(),
        inventory_type: INVENTORY_TYPE.to_string(),
        inventory_id: INVENTORY_ID.to_string(),
        serial_number: Some(SERIAL_NUMBER.to_string()),
        aws_instance_id: None,
        created_at: timestamp_of(created_at),
    });

    assert_eq!(INVENTORY_TYPE, response.inventory_type);
    assert_eq!(Some(SERIAL_NUMBER.to_string()), response.serial_number);
    assert!(response.aws_instance_id.is_none());
}

#[test]
fn response_shows_every_field() {
    let created_at = Timestamp { seconds: 1_435_800_000, nanoseconds: 0, offset_seconds: 7200 };
    let response = fetcher::Response::from(Inventory {
        customer_id: customer_id(),
        vessel_id: vessel_id(),
        inventory_type: "radar".to_string(),
        inventory_id: "r-7".to_string(),
        serial_number: None,
        aws_instance_id: Some("im-12345".to_string()),
        created_at,
    });

    assert_eq!(
        fetcher::Response {
            inventory_type: "radar".to_string(),
            inventory_id: "r-7".to_string(),
            serial_number: None,
            aws_instance_id: Some("im-12345".to_string()),
            created_at,
        },
        response
    );
}

#[test]
fn response_license_from_model() {
    const SERIAL_NUMBER: &str = "q1w2e3r4";
    let created_at = Utc
        .with_ymd_and_hms(2015, 7, 2, 1, 20, 0)
        .unwrap()
        .with_timezone(&FixedOffset::east_opt(7200).unwrap());

    let response = lister::InventoryResponse::from(Inventory {
        customer_id: customer_id(),
        vessel_id: vessel_id(),
        inventory_type: INVENTORY_TYPE.to_string(),
        inventory_id: INVENTORY_ID.to_string(),
        serial_number: Some(SERIAL_NUMBER.to_string()),
        aws_instance_id: None,
        created_at: timestamp_of(created_at),
    });

    assert_eq!(Some(SERIAL_NUMBER.to_string()), response.serial_number);
}

#[test]
fn main_response_from_model() {
    const SERIAL_NUMBER: &str = "q1w2e3r4";
    let created_at = Utc
        .with_ymd_and_hms(2011, 1, 30, 13, 58, 0)
        .unwrap()
        .with_timezone(&FixedOffset::east_opt(3600).unwrap());

    let response = lister::Response::from(DynamoResultsPage {
        items: vec![Inventory {
            customer_id: customer_id(),
            vessel_id: vessel_id(),
            inventory_type: INVENTORY_TYPE.to_string(),
            inventory_id: INVENTORY_ID.to_string(),
            serial_number: Some(SERIAL_NUMBER.to_string()),
            aws_instance_id: None,
            created_at: timestamp_of(created_at),
        }],
        last_evaluated_key: Some(PAGE_TOKEN.to_string()),
    });

    assert_eq!(1, response.inventory.len());
    assert_eq!(Some(SERIAL_NUMBER.to_string()), response.inventory[0].serial_number);
    assert_eq!(Some(PAGE_TOKEN.to_string()), response.page_token);
}

#[test]
fn page_response_keeps_order_and_fields() {
    let first = Timestamp { seconds: 10, nanoseconds: 0, offset_seconds: 0 };
    let second = Timestamp { seconds: 20, nanoseconds: 5, offset_seconds: -3600 };
    let record = |inventory_id: &str, serial: Option<&str>, created_at: Timestamp| Inventory {
        customer_id: customer_id(),
        vessel_id: vessel_id(),
        inventory_type: INVENTORY_TYPE.to_string(),
        inventory_id: inventory_id.to_string(),
        serial_number: serial.map(|text| text.to_string()),
        aws_instance_id: None,
        created_at,
    };

    let response = lister::Response::from(DynamoResultsPage {
        items: vec![record("012", Some("q1w2e3"), first), record("345", None, second)],
        last_evaluated_key: None,
    });

    assert_eq!(
        lister::Response {
            inventory: vec![
                lister::InventoryResponse {
                    inventory_type: INVENTORY_TYPE.to_string(),
                    inventory_id: "012".to_string(),
                    serial_number: Some("q1w2e3".to_string()),
                    aws_instance_id: None,
                    created_at: first,
                },
                lister::InventoryResponse {
                    inventory_type: INVENTORY_TYPE.to_string(),
                    inventory_id: "345".to_string(),
                    serial_number: None,
                    aws_instance_id: None,
                    created_at: second,
                },
            ],
            page_token: None,
        },
        response
    );
}

#[test]
fn empty_page_response() {
    let response = lister::Response::from(DynamoResultsPage::<Inventory, String> {
        items: vec![],
        last_evaluated_key: None,
    });

    assert!(response.inventory.is_empty());
    assert!(response.page_token.is_none());
}
