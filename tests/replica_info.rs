use std::collections::hash_map::DefaultHasher;
use std::hash::{Hash, Hasher};

use sector_replica::commitment::commitments_equal;
use sector_replica::proof_version::RegisteredPoStProof;
use sector_replica::replica::{
    PrivateReplicaInfo, PublicReplicaInfo, ReplicaInfoError, ReplicaLocation,
};
use sector_replica::sector_path::PrivateSectorPathInfo;

const V1: RegisteredPoStProof = RegisteredPoStProof::StackedDrgWindow2KiBV1;
const V2: RegisteredPoStProof = RegisteredPoStProof::StackedDrgWinning32GiBV1;

fn oss(bucket: &str, key: &str) -> PrivateSectorPathInfo {
    PrivateSectorPathInfo::new(bucket.to_string(), key.to_string(), None)
}

fn hash_of<T: Hash>(t: &T) -> u64 {
    let mut h = DefaultHasher::new();
    t.hash(&mut h);
    h.finish()
}

fn full(
    replica_in_oss: bool,
    cache_in_oss: bool,
) -> PrivateReplicaInfo {
    PrivateReplicaInfo::new_with_oss_config(
        V1,
        "/b".to_string(),
        replica_in_oss,
        oss("rb", "rk"),
        [7u8; 32],
        "/a".to_string(),
        cache_in_oss,
        oss("cb", "ck"),
    )
}

#[test]
fn local_construction_scenario() {
    let info = PrivateReplicaInfo::new(V1, [0u8; 32], "/a".to_string(), "/b".to_string());
    assert!(!info.cache_in_oss());
    assert!(!info.replica_in_oss());
    assert_eq!(info.cache_dir(), "/a");
    assert_eq!(info.replica_path(), "/b");
    assert_eq!(info.registered_proof(), V1);
    assert_eq!(info.comm_r(), [0u8; 32]);
    assert!(matches!(info.cache_location(), Ok(ReplicaLocation::Local("/a"))));
    assert!(matches!(info.replica_location(), Ok(ReplicaLocation::Local("/b"))));
}

#[test]
fn local_construction_leaves_descriptors_default() {
    let info = PrivateReplicaInfo::new(V2, [3u8; 32], "/x".to_string(), "/y".to_string());
    assert_eq!(*info.cache_sector_path_info(), PrivateSectorPathInfo::default());
    assert_eq!(*info.replica_sector_path_info(), PrivateSectorPathInfo::default());
    assert_eq!(info.cache_sector_path_info().bucket(), "");
    assert_eq!(info.cache_sector_path_info().key(), "");
    assert_eq!(info.cache_sector_path_info().endpoint(), None);
}

#[test]
fn mixed_origin_scenario() {
    let info = PrivateReplicaInfo::new_with_oss_config(
        V1,
        "/b".to_string(),
        true,
        oss("x", "y"),
        [1u8; 32],
        "/a".to_string(),
        false,
        PrivateSectorPathInfo::default(),
    );
    match info.replica_location() {
        Ok(ReplicaLocation::Oss(d)) => {
            assert_eq!(d.bucket(), "x");
            assert_eq!(d.key(), "y");
            assert_eq!(*d, oss("x", "y"));
        }
        other => panic!("unexpected replica location {:?}", other),
    }
    assert!(matches!(info.cache_location(), Ok(ReplicaLocation::Local("/a"))));
}

#[test]
fn cache_dir_difference_makes_unequal() {
    let a = PrivateReplicaInfo::new(V1, [0u8; 32], "/a".to_string(), "/b".to_string());
    let b = PrivateReplicaInfo::new(V1, [0u8; 32], "/a2".to_string(), "/b".to_string());
    assert_eq!(a.registered_proof(), b.registered_proof());
    assert_eq!(a.comm_r(), b.comm_r());
    assert_ne!(a, b);
}

#[test]
fn full_construction_keeps_every_argument() {
    for replica_in_oss in [false, true] {
        for cache_in_oss in [false, true] {
            let info = full(replica_in_oss, cache_in_oss);
            assert_eq!(info.registered_proof(), V1);
            assert_eq!(info.replica_path(), "/b");
            assert_eq!(info.replica_in_oss(), replica_in_oss);
            assert_eq!(*info.replica_sector_path_info(), oss("rb", "rk"));
            assert_eq!(info.comm_r(), [7u8; 32]);
            assert_eq!(info.cache_dir(), "/a");
            assert_eq!(info.cache_in_oss(), cache_in_oss);
            assert_eq!(*info.cache_sector_path_info(), oss("cb", "ck"));
        }
    }
}

#[test]
fn each_flag_resolves_its_own_asset() {
    let info = full(true, false);
    assert!(matches!(info.replica_location(), Ok(ReplicaLocation::Oss(d)) if d.bucket() == "rb"));
    assert!(matches!(info.cache_location(), Ok(ReplicaLocation::Local("/a"))));
    let info = full(false, true);
    assert!(matches!(info.replica_location(), Ok(ReplicaLocation::Local("/b"))));
    assert!(matches!(info.cache_location(), Ok(ReplicaLocation::Oss(d)) if d.key() == "ck"));
}

#[test]
fn equal_arguments_give_equal_infos_and_hashes() {
    let a = full(true, false);
    let b = full(true, false);
    assert_eq!(a, a);
    assert_eq!(a, b);
    assert_eq!(b, a);
    assert_eq!(hash_of(&a), hash_of(&b));
    let c = a.clone();
    assert_eq!(a, c);
}

#[test]
fn one_changed_field_makes_unequal() {
    let base = full(true, true);
    let mut comm = [7u8; 32];
    comm[31] ^= 1;
    let variants = vec![
        PrivateReplicaInfo::new_with_oss_config(V2, "/b".to_string(), true, oss("rb", "rk"), [7u8; 32], "/a".to_string(), true, oss("cb", "ck")),
        PrivateReplicaInfo::new_with_oss_config(V1, "/b2".to_string(), true, oss("rb", "rk"), [7u8; 32], "/a".to_string(), true, oss("cb", "ck")),
        PrivateReplicaInfo::new_with_oss_config(V1, "/b".to_string(), false, oss("rb", "rk"), [7u8; 32], "/a".to_string(), true, oss("cb", "ck")),
        PrivateReplicaInfo::new_with_oss_config(V1, "/b".to_string(), true, oss("rb", "rk2"), [7u8; 32], "/a".to_string(), true, oss("cb", "ck")),
        PrivateReplicaInfo::new_with_oss_config(V1, "/b".to_string(), true, oss("rb", "rk"), comm, "/a".to_string(), true, oss("cb", "ck")),
        PrivateReplicaInfo::new_with_oss_config(V1, "/b".to_string(), true, oss("rb", "rk"), [7u8; 32], "/a2".to_string(), true, oss("cb", "ck")),
        PrivateReplicaInfo::new_with_oss_config(V1, "/b".to_string(), true, oss("rb", "rk"), [7u8; 32], "/a".to_string(), false, oss("cb", "ck")),
        PrivateReplicaInfo::new_with_oss_config(V1, "/b".to_string(), true, oss("rb", "rk"), [7u8; 32], "/a".to_string(), true, oss("cb2", "ck")),
    ];
    for v in &variants {
        assert_ne!(&base, v);
        assert_ne!(v, &base);
    }
}

#[test]
fn descriptor_endpoint_takes_part_in_equality() {
    let a = PrivateSectorPathInfo::new("b".to_string(), "k".to_string(), Some("eu-1".to_string()));
    let b = PrivateSectorPathInfo::new("b".to_string(), "k".to_string(), None);
    assert_eq!(a.endpoint(), Some("eu-1"));
    assert_ne!(a, b);
    assert_eq!(a, a.clone());
}

#[test]
fn public_info_ignores_locations() {
    let a = PrivateReplicaInfo::new(V1, [5u8; 32], "/a".to_string(), "/b".to_string());
    let b = PrivateReplicaInfo::new_with_oss_config(
        V1,
        "/other".to_string(),
        true,
        oss("x", "y"),
        [5u8; 32],
        "/c".to_string(),
        true,
        oss("p", "q"),
    );
    assert_ne!(a, b);
    assert_eq!(a.to_public(), b.to_public());
    assert_eq!(a.to_public(), PublicReplicaInfo::new(V1, [5u8; 32]));
    assert_eq!(hash_of(&a.to_public()), hash_of(&b.to_public()));
}

#[test]
fn public_info_equality_by_version_and_commitment() {
    let p = PublicReplicaInfo::new(V1, [9u8; 32]);
    assert_eq!(p.registered_proof(), V1);
    assert_eq!(p.comm_r(), [9u8; 32]);
    assert_eq!(p, PublicReplicaInfo::new(V1, [9u8; 32]));
    assert_ne!(p, PublicReplicaInfo::new(V2, [9u8; 32]));
    let mut comm = [9u8; 32];
    comm[0] = 8;
    assert_ne!(p, PublicReplicaInfo::new(V1, comm));
}

#[test]
fn oss_flag_with_default_descriptor_is_reported() {
    let info = PrivateReplicaInfo::new_with_oss_config(
        V1,
        "/b".to_string(),
        true,
        PrivateSectorPathInfo::default(),
        [0u8; 32],
        "/a".to_string(),
        true,
        oss("bucket", ""),
    );
    assert_eq!(info.replica_location().unwrap_err(), ReplicaInfoError::MissingLocationDescriptor);
    assert_eq!(info.cache_location().unwrap_err(), ReplicaInfoError::MissingLocationDescriptor);
}

#[test]
fn descriptor_population() {
    assert!(oss("b", "k").is_populated());
    assert!(!oss("", "k").is_populated());
    assert!(!oss("b", "").is_populated());
    assert!(!PrivateSectorPathInfo::default().is_populated());
}

#[test]
fn private_batch_version_check() {
    let a = PrivateReplicaInfo::new(V1, [0u8; 32], "/a".to_string(), "/b".to_string());
    let b = PrivateReplicaInfo::new(V1, [1u8; 32], "/c".to_string(), "/d".to_string());
    let c = PrivateReplicaInfo::new(V2, [2u8; 32], "/e".to_string(), "/f".to_string());
    assert_eq!(PrivateReplicaInfo::check_proof_versions(&[]), Ok(()));
    assert_eq!(PrivateReplicaInfo::check_proof_versions(&[a.clone(), b.clone()]), Ok(()));
    assert_eq!(
        PrivateReplicaInfo::check_proof_versions(&[a, b, c]),
        Err(ReplicaInfoError::ProofVersionMismatch)
    );
}

#[test]
fn public_batch_version_check() {
    let a = PublicReplicaInfo::new(V2, [0u8; 32]);
    let b = PublicReplicaInfo::new(V1, [0u8; 32]);
    assert_eq!(PublicReplicaInfo::check_proof_versions(&[a]), Ok(()));
    assert_eq!(PublicReplicaInfo::check_proof_versions(&[a, a]), Ok(()));
    assert_eq!(
        PublicReplicaInfo::check_proof_versions(&[a, b]),
        Err(ReplicaInfoError::ProofVersionMismatch)
    );
}

#[test]
fn commitment_comparison() {
    let a = [4u8; 32];
    let mut b = [4u8; 32];
    assert!(commitments_equal(&a, &b));
    b[17] = 5;
    assert!(!commitments_equal(&a, &b));
}
