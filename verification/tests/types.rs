use schnorr_canister::SchnorrKeyId;
use schnorr_canister::SchnorrKeyIds;

#[test]
fn to_key_id_names() {
    assert_eq!(SchnorrKeyIds::DfxTestKey.to_key_id().name(), "dfx_test_key");
    assert_eq!(SchnorrKeyIds::TestKey1.to_key_id().name(), "test_key_1");
}

#[test]
fn to_key_id_equals_named_id() {
    assert_eq!(
        SchnorrKeyIds::DfxTestKey.to_key_id(),
        SchnorrKeyId::new("dfx_test_key".to_string())
    );
    assert_ne!(SchnorrKeyIds::DfxTestKey.to_key_id(), SchnorrKeyIds::TestKey1.to_key_id());
}

#[test]
fn variants_lists_each_key_once() {
    assert_eq!(
        SchnorrKeyIds::variants(),
        vec![SchnorrKeyIds::DfxTestKey, SchnorrKeyIds::TestKey1]
    );
}

#[test]
fn key_ids_order_by_name() {
    let a = SchnorrKeyId::new("a".to_string());
    let b = SchnorrKeyId::new("b".to_string());
    assert!(a < b);
    assert_eq!(a.clone(), a);
}
