use axum_web_starter::cache_key::{cache_key, compose_key, Namespace};

#[test]
fn customer_key_is_namespace_colon_uuid() {
    let id = 0xd290f1ee_6c54_4b01_90e6_d701748f0851u128;
    assert_eq!(
        cache_key(Namespace::Customer, id),
        "customer:d290f1ee-6c54-4b01-90e6-d701748f0851"
    );
}

#[test]
fn seller_key_is_namespace_colon_uuid() {
    assert_eq!(
        cache_key(Namespace::Seller, 1),
        "seller:00000000-0000-0000-0000-000000000001"
    );
}

#[test]
fn same_id_in_two_namespaces_gives_two_keys() {
    let id = 42u128;
    assert_ne!(cache_key(Namespace::Customer, id), cache_key(Namespace::Seller, id));
}

#[test]
fn namespace_names() {
    assert_eq!(Namespace::Customer.name(), "customer");
    assert_eq!(Namespace::Seller.name(), "seller");
}

#[test]
fn compose_key_joins_with_colon() {
    assert_eq!(compose_key(Namespace::Customer, "abc"), "customer:abc");
    assert_eq!(compose_key(Namespace::Seller, ""), "seller:");
}
