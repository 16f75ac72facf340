use schnorr_canister::keys::derive_child_private;
use schnorr_canister::keys::derive_child_public;
use schnorr_canister::keys::extended_key_or_failure;
use schnorr_canister::keys::key_or_failure;
use schnorr_canister::keys::master_key;
use schnorr_canister::keys::public_key;
use schnorr_canister::keys::zero_chain_code;
use schnorr_canister::path::copy_bytes;
use schnorr_canister::path::derivation_path;
use schnorr_canister::path::tenant;
use schnorr_canister::signer::sign;
use schnorr_canister::signer::signature_or_failure;
use schnorr_canister::Error;

const MASTER: [u8; 32] = [
    148, 136, 149, 217, 197, 201, 98, 116, 81, 135, 182, 178, 66, 101, 209, 116, 27, 50, 128, 197,
    155, 135, 242, 208, 192, 189, 107, 180, 239, 145, 133, 226,
];

const MASTER_PUBLIC: [u8; 33] = [
    2, 231, 30, 42, 53, 51, 95, 156, 58, 60, 199, 60, 213, 22, 30, 124, 137, 83, 66, 49, 230, 235,
    27, 180, 4, 82, 6, 219, 188, 38, 228, 109, 128,
];

const CHILD_PUBLIC: [u8; 33] = [
    2, 244, 246, 114, 60, 87, 17, 222, 196, 87, 234, 112, 103, 168, 42, 147, 80, 253, 53, 249, 96,
    167, 95, 31, 65, 108, 17, 84, 87, 121, 26, 169, 103,
];

const CHILD_CHAIN_CODE: [u8; 32] = [
    111, 4, 229, 253, 97, 218, 240, 184, 71, 67, 171, 98, 188, 200, 88, 246, 106, 228, 139, 129,
    230, 208, 213, 6, 59, 40, 62, 50, 15, 51, 82, 250,
];

const CHILD_PRIVATE: [u8; 32] = [
    241, 57, 39, 132, 165, 101, 44, 95, 182, 90, 134, 58, 168, 133, 128, 42, 54, 219, 178, 117,
    78, 74, 139, 184, 200, 226, 221, 142, 125, 160, 228, 132,
];

const DIGEST: [u8; 32] = [
    192, 113, 158, 154, 141, 93, 131, 141, 134, 29, 198, 246, 117, 200, 153, 210, 179, 9, 163,
    166, 91, 185, 254, 107, 17, 229, 175, 203, 249, 162, 192, 177,
];

const SIGNATURE: [u8; 64] = [
    50, 137, 202, 53, 128, 34, 255, 221, 143, 240, 249, 39, 225, 110, 115, 153, 125, 37, 218, 159,
    214, 110, 46, 144, 244, 172, 183, 175, 168, 120, 129, 69, 93, 170, 217, 174, 147, 74, 156,
    137, 155, 127, 151, 81, 134, 148, 195, 82, 130, 167, 131, 83, 167, 77, 31, 245, 210, 34, 246,
    178, 72, 218, 97, 74,
];

fn sample_path() -> Vec<Vec<u8>> {
    vec![b"abc".to_vec(), vec![1, 2, 3, 4]]
}

#[test]
fn master_key_of_ones_seed() {
    assert_eq!(master_key(&[1u8; 64]), Ok(MASTER.to_vec()));
}

#[test]
fn master_key_is_deterministic() {
    let seed = [7u8; 64];
    assert_eq!(master_key(&seed), master_key(&seed));
    assert_ne!(master_key(&seed), master_key(&[8u8; 64]));
}

#[test]
fn public_key_of_master() {
    assert_eq!(public_key(&MASTER.to_vec()), Ok(MASTER_PUBLIC.to_vec()));
}

#[test]
fn public_key_rejects_zero_key() {
    assert_eq!(public_key(&vec![0u8; 32]), Err(Error::DerivationFailure));
}

#[test]
fn public_key_rejects_short_key() {
    assert_eq!(public_key(&vec![1u8; 31]), Err(Error::DerivationFailure));
    assert_eq!(public_key(&Vec::new()), Err(Error::DerivationFailure));
}

#[test]
fn derive_child_public_exact() {
    let derived = derive_child_public(&MASTER_PUBLIC.to_vec(), &sample_path());
    assert_eq!(derived, Ok((CHILD_PUBLIC.to_vec(), CHILD_CHAIN_CODE.to_vec())));
}

#[test]
fn derive_child_private_exact() {
    let derived = derive_child_private(&MASTER.to_vec(), &sample_path());
    assert_eq!(derived, Ok((CHILD_PRIVATE.to_vec(), CHILD_CHAIN_CODE.to_vec())));
}

#[test]
fn derive_child_private_twice_is_identical() {
    let master = master_key(&[1u8; 64]).unwrap();
    let first = derive_child_private(&master, &sample_path());
    let second = derive_child_private(&master, &sample_path());
    assert!(first.is_ok());
    assert_eq!(first, second);
}

#[test]
fn derive_child_public_twice_is_identical() {
    let first = derive_child_public(&MASTER_PUBLIC.to_vec(), &sample_path());
    let second = derive_child_public(&MASTER_PUBLIC.to_vec(), &sample_path());
    assert_eq!(first, second);
}

#[test]
fn derived_public_key_matches_derived_private_key() {
    let paths: Vec<Vec<Vec<u8>>> = vec![
        vec![],
        vec![vec![]],
        vec![b"abc".to_vec()],
        sample_path(),
        vec![vec![0u8; 29], vec![255u8; 100], vec![], vec![9]],
    ];
    for seed_byte in [1u8, 2, 200] {
        let master = master_key(&[seed_byte; 64]).unwrap();
        let master_public = public_key(&master).unwrap();
        for path in &paths {
            let (private, private_code) = derive_child_private(&master, path).unwrap();
            let (public, public_code) = derive_child_public(&master_public, path).unwrap();
            assert_eq!(public_key(&private), Ok(public));
            assert_eq!(private_code, public_code);
        }
    }
}

#[test]
fn empty_path_keeps_the_key_and_the_root_chain_code() {
    let derived = derive_child_public(&MASTER_PUBLIC.to_vec(), &Vec::new());
    assert_eq!(derived, Ok((MASTER_PUBLIC.to_vec(), vec![0u8; 32])));
    let derived = derive_child_private(&MASTER.to_vec(), &Vec::new());
    assert_eq!(derived, Ok((MASTER.to_vec(), vec![0u8; 32])));
}

#[test]
fn derive_child_public_rejects_invalid_key() {
    assert_eq!(
        derive_child_public(&vec![0u8; 33], &sample_path()),
        Err(Error::DerivationFailure)
    );
    assert_eq!(derive_child_public(&Vec::new(), &sample_path()), Err(Error::DerivationFailure));
}

#[test]
fn derive_child_private_rejects_invalid_key() {
    assert_eq!(
        derive_child_private(&vec![0u8; 32], &sample_path()),
        Err(Error::DerivationFailure)
    );
    assert_eq!(
        derive_child_private(&vec![255u8; 32], &sample_path()),
        Err(Error::DerivationFailure)
    );
    assert_eq!(
        derive_child_private(&vec![1u8; 33], &sample_path()),
        Err(Error::DerivationFailure)
    );
}

#[test]
fn derived_keys_depend_on_every_segment() {
    let base = derive_child_public(&MASTER_PUBLIC.to_vec(), &sample_path()).unwrap();
    let changed = vec![b"abc".to_vec(), vec![1, 2, 3, 5]];
    assert_ne!(derive_child_public(&MASTER_PUBLIC.to_vec(), &changed).unwrap(), base);
    let longer = vec![b"abc".to_vec(), vec![1, 2, 3, 4], vec![]];
    assert_ne!(derive_child_public(&MASTER_PUBLIC.to_vec(), &longer).unwrap(), base);
}

#[test]
fn tenants_with_same_segments_get_different_keys() {
    let extra = vec![vec![1u8, 2, 3, 4]];
    let first = derivation_path(&b"abc".to_vec(), &extra);
    let second = derivation_path(&b"abd".to_vec(), &extra);
    assert_ne!(first, second);
    let master = MASTER.to_vec();
    let a = derive_child_private(&master, &first).unwrap();
    let b = derive_child_private(&master, &second).unwrap();
    assert_ne!(a.0, b.0);
    assert_ne!(a.1, b.1);
    let public = MASTER_PUBLIC.to_vec();
    let a = derive_child_public(&public, &first).unwrap();
    let b = derive_child_public(&public, &second).unwrap();
    assert_ne!(a.0, b.0);
}

#[test]
fn sign_exact() {
    assert_eq!(sign(&CHILD_PRIVATE.to_vec(), &DIGEST.to_vec()), Ok(SIGNATURE.to_vec()));
}

#[test]
fn sign_is_deterministic_and_64_bytes() {
    let first = sign(&MASTER.to_vec(), &DIGEST.to_vec()).unwrap();
    let second = sign(&MASTER.to_vec(), &DIGEST.to_vec()).unwrap();
    assert_eq!(first.len(), 64);
    assert_eq!(first, second);
    assert_ne!(first, sign(&MASTER.to_vec(), &vec![0u8; 32]).unwrap());
}

#[test]
fn sign_rejects_malformed_key() {
    assert_eq!(sign(&vec![0u8; 32], &DIGEST.to_vec()), Err(Error::SigningFailure));
    assert_eq!(sign(&vec![255u8; 32], &DIGEST.to_vec()), Err(Error::SigningFailure));
    assert_eq!(sign(&vec![1u8; 5], &DIGEST.to_vec()), Err(Error::SigningFailure));
}

#[test]
fn outcomes_map_to_failures() {
    assert_eq!(key_or_failure(None), Err(Error::DerivationFailure));
    assert_eq!(key_or_failure(Some(vec![1, 2])), Ok(vec![1, 2]));
    assert_eq!(extended_key_or_failure(None), Err(Error::DerivationFailure));
    assert_eq!(extended_key_or_failure(Some((vec![1], vec![2]))), Ok((vec![1], vec![2])));
    assert_eq!(signature_or_failure(None), Err(Error::SigningFailure));
    assert_eq!(signature_or_failure(Some(vec![3])), Ok(vec![3]));
}

#[test]
fn root_chain_code_is_zero() {
    assert_eq!(zero_chain_code(), [0u8; 32]);
}

#[test]
fn derivation_path_puts_tenant_first() {
    let path = derivation_path(&b"abc".to_vec(), &vec![vec![1, 2, 3, 4], vec![], vec![9]]);
    assert_eq!(path, vec![b"abc".to_vec(), vec![1, 2, 3, 4], vec![], vec![9]]);
    assert_eq!(derivation_path(&Vec::new(), &Vec::new()), vec![Vec::<u8>::new()]);
}

#[test]
fn tenant_is_override_or_caller() {
    assert_eq!(tenant(&Some(vec![1, 2]), &vec![3]), vec![1, 2]);
    assert_eq!(tenant(&None, &vec![3]), vec![3]);
    assert_eq!(tenant(&Some(Vec::new()), &vec![3]), Vec::<u8>::new());
}

#[test]
fn copy_bytes_copies() {
    assert_eq!(copy_bytes(&vec![1, 2, 3]), vec![1, 2, 3]);
    assert_eq!(copy_bytes(&Vec::new()), Vec::<u8>::new());
}
