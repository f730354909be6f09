use inventory_core::key::{hash_key_of, sort_key_of};
use inventory_core::Uuid;

#[test]
fn hash_key_joins_canonical_texts() {
    let customer = Uuid::from_u128(0);
    let vessel = Uuid::from_u128(1);

    assert_eq!(
        "00000000-0000-0000-0000-000000000000:00000000-0000-0000-0000-000000000001",
        hash_key_of(&customer, &vessel)
    );
}

#[test]
fn hash_key_keeps_the_order_of_customer_and_vessel() {
    let customer = Uuid::from_u128(0xa1a2a3a4_b1b2_c1c2_d1d2_d3d4d5d6d7d8);
    let vessel = Uuid::from_u128(0x550e8400_e29b_41d4_a716_446655440000);

    assert_eq!(
        "a1a2a3a4-b1b2-c1c2-d1d2-d3d4d5d6d7d8:550e8400-e29b-41d4-a716-446655440000",
        hash_key_of(&customer, &vessel)
    );
    assert_eq!(
        "550e8400-e29b-41d4-a716-446655440000:a1a2a3a4-b1b2-c1c2-d1d2-d3d4d5d6d7d8",
        hash_key_of(&vessel, &customer)
    );
}

#[test]
fn hash_keys_of_different_identities_differ() {
    let ids = [0u128, 1, 2, 16, u128::MAX, 1 << 127, 0xffff_ffff];
    let mut keys = Vec::new();
    for customer in ids {
        for vessel in ids {
            keys.push(hash_key_of(&Uuid::from_u128(customer), &Uuid::from_u128(vessel)));
        }
    }
    for (i, left) in keys.iter().enumerate() {
        assert_eq!(73, left.len());
        for right in keys.iter().skip(i + 1) {
            assert_ne!(left, right);
        }
    }
}

#[test]
fn sort_key_joins_type_and_identifier() {
    assert_eq!("pc:012", sort_key_of(&"pc".to_string(), &"012".to_string()));
    assert_eq!("radar:345", sort_key_of(&"radar".to_string(), &"345".to_string()));
}

#[test]
fn sort_key_of_empty_parts() {
    assert_eq!(":", sort_key_of(&String::new(), &String::new()));
    assert_eq!("pc:", sort_key_of(&"pc".to_string(), &String::new()));
    assert_eq!(":012", sort_key_of(&String::new(), &"012".to_string()));
}

#[test]
fn sort_key_keeps_characters_beyond_ascii() {
    assert_eq!("żuraw:№1", sort_key_of(&"żuraw".to_string(), &"№1".to_string()));
}

#[test]
fn sort_keys_of_delimiter_free_identities_differ() {
    let parts = ["", "a", "b", "ab", "pc", "012", "radar"];
    let mut keys = Vec::new();
    for inventory_type in parts {
        for inventory_id in parts {
            keys.push(sort_key_of(&inventory_type.to_string(), &inventory_id.to_string()));
        }
    }
    for (i, left) in keys.iter().enumerate() {
        for right in keys.iter().skip(i + 1) {
            assert_ne!(left, right);
        }
    }
}

#[test]
fn sort_keys_collide_where_a_type_holds_the_delimiter() {
    assert_eq!(
        sort_key_of(&"a".to_string(), &"b:c".to_string()),
        sort_key_of(&"a:b".to_string(), &"c".to_string())
    );
}

#[test]
fn sort_key_tells_identifiers_with_the_delimiter_apart() {
    assert_ne!(
        sort_key_of(&"a".to_string(), &"b:c".to_string()),
        sort_key_of(&"a".to_string(), &"b".to_string())
    );
}
